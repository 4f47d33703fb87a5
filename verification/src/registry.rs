//! The registry: every call site that was reached, with its record.
//!
//! A record is made when its call site is first reached and stays until the
//! registry is torn down. Tearing down hands out, once, the image of every
//! record that is not shown live. A registry that was torn down ignores what
//! reaches it afterwards.

use vstd::prelude::*;
use crate::chart::{Chart, FileRender, FileRenderView};
use crate::location::{Location, LocationView};
use crate::options::{Options, OptionsView};
use crate::plot::names_of;
use crate::wrapper::{PlotWrapper, PlotWrapperView, Sample};

verus! {

/// The records of all call sites, in the order in which the call sites were
/// first reached.
pub struct Plots {
    entries: Vec<(Location, PlotWrapper)>,
    flushed: bool,
}

/// What a registry holds, as plain values.
pub struct PlotsView {
    /// Each call site with its record, in the order of first arrival.
    pub entries: Seq<(LocationView, PlotWrapperView)>,
    /// Whether the registry was torn down.
    pub flushed: bool,
}

/// The images of the records that are not live, in the order of the records.
pub open spec fn renders(entries: Seq<(LocationView, PlotWrapperView)>) -> Seq<FileRenderView>
    decreases entries.len(),
{
    if entries.len() == 0 {
        Seq::empty()
    } else {
        match entries.last().1.file_render() {
            Some(render) => renders(entries.drop_last()).push(render),
            None => renders(entries.drop_last()),
        }
    }
}

/// The images as plain values.
pub open spec fn views_of(renders: Seq<FileRender>) -> Seq<FileRenderView> {
    Seq::new(renders.len(), |i: int| renders[i]@)
}

impl PlotsView {
    /// The registry before any call site was reached.
    pub open spec fn empty() -> PlotsView {
        PlotsView { entries: Seq::empty(), flushed: false }
    }

    /// Whether the call site has a record.
    pub open spec fn holds(self, location: LocationView) -> bool {
        exists|i: int| 0 <= i < self.entries.len() && (#[trigger] self.entries[i]).0 == location
    }

    /// Whether `index` is the place of the first record of the call site.
    pub open spec fn is_position(self, location: LocationView, index: int) -> bool {
        &&& 0 <= index < self.entries.len()
        &&& self.entries[index].0 == location
        &&& forall|j: int| 0 <= j < index ==> (#[trigger] self.entries[j]).0 != location
    }

    /// The place of the record of a call site that has one.
    pub open spec fn position(self, location: LocationView) -> int {
        choose|i: int| self.is_position(location, i)
    }

    /// No call site has two records.
    pub open spec fn distinct(self) -> bool {
        forall|i: int, j: int|
            0 <= i < self.entries.len() && 0 <= j < self.entries.len() && i != j ==> (
            #[trigger] self.entries[i]).0 != (#[trigger] self.entries[j]).0
    }

    /// The registry after the call site was looked up: a call site that is
    /// new to a registry in use got a fresh record behind all others; nothing
    /// else changed.
    pub open spec fn get_or_create(
        self,
        location: LocationView,
        names: Seq<Seq<char>>,
        options: OptionsView,
    ) -> PlotsView {
        if self.flushed || self.holds(location) {
            self
        } else {
            PlotsView {
                entries: self.entries.push((location, PlotWrapperView::new(names, location, options))),
                ..self
            }
        }
    }

    /// The registry after one invocation of a call site: the record of the
    /// call site, made if need be, recorded the samples. Names and options
    /// count only when the record is made.
    pub open spec fn plot(
        self,
        location: LocationView,
        names: Seq<Seq<char>>,
        options: OptionsView,
        samples: Seq<Sample>,
    ) -> PlotsView {
        if self.flushed {
            self
        } else {
            let found = self.get_or_create(location, names, options);
            let index = found.position(location);
            PlotsView {
                entries: found.entries.update(
                    index,
                    (location, found.entries[index].1.record(samples)),
                ),
                ..found
            }
        }
    }

    /// The images that tearing down hands out: those of the records that are
    /// not live, if the registry was not torn down before.
    pub open spec fn pending(self) -> Seq<FileRenderView> {
        if self.flushed {
            Seq::empty()
        } else {
            renders(self.entries)
        }
    }

    /// The registry after it was torn down.
    pub open spec fn teardown(self) -> PlotsView {
        PlotsView { flushed: true, ..self }
    }
}

/// A call site that has a record has a first one, and `position` is its
/// place.
pub proof fn lemma_position_exists(plots: PlotsView, location: LocationView)
    requires
        plots.holds(location),
    ensures
        plots.is_position(location, plots.position(location)),
    decreases plots.entries.len(),
{
    let last = plots.entries.len() - 1;
    let before = PlotsView { entries: plots.entries.drop_last(), ..plots };
    if before.holds(location) {
        lemma_position_exists(before, location);
        let index = before.position(location);
        assert forall|j: int| 0 <= j < index implies (#[trigger] plots.entries[j]).0 != location by {
            assert(before.entries[j] == plots.entries[j]);
        }
        assert(plots.is_position(location, index));
    } else {
        assert forall|j: int| 0 <= j < last implies (#[trigger] plots.entries[j]).0 != location by {
            assert(before.entries[j] == plots.entries[j]);
        }
        assert(plots.is_position(location, last));
    }
}

/// The registry never holds two records for one call site: an empty registry
/// holds none, and looking up, invoking and tearing down add none.
pub proof fn lemma_call_sites_stay_distinct(
    plots: PlotsView,
    location: LocationView,
    names: Seq<Seq<char>>,
    options: OptionsView,
    samples: Seq<Sample>,
)
    requires
        plots.distinct(),
    ensures
        PlotsView::empty().distinct(),
        plots.get_or_create(location, names, options).distinct(),
        plots.plot(location, names, options, samples).distinct(),
        plots.teardown().distinct(),
{
    let found = plots.get_or_create(location, names, options);
    assert(found.distinct());
    if !plots.flushed {
        assert(found.holds(location)) by {
            if !plots.holds(location) {
                assert(found.entries[plots.entries.len() as int].0 == location);
            }
        }
        lemma_position_exists(found, location);
    }
}

/// An invocation of one call site leaves the record of every other call site
/// as it was, whatever the names of their series are.
pub proof fn lemma_plot_leaves_other_call_sites(
    plots: PlotsView,
    location: LocationView,
    names: Seq<Seq<char>>,
    options: OptionsView,
    samples: Seq<Sample>,
    other: LocationView,
)
    requires
        other != location,
        plots.holds(other),
    ensures
        plots.plot(location, names, options, samples).holds(other),
        plots.plot(location, names, options, samples).position(other) == plots.position(other),
        plots.plot(location, names, options, samples).entries[plots.position(other)]
            == plots.entries[plots.position(other)],
{
    lemma_position_exists(plots, other);
    let at = plots.position(other);
    if !plots.flushed {
        let found = plots.get_or_create(location, names, options);
        assert(found.holds(location)) by {
            if !plots.holds(location) {
                assert(found.entries[plots.entries.len() as int].0 == location);
            }
        }
        lemma_position_exists(found, location);
        let after = plots.plot(location, names, options, samples);
        assert(after.entries[at] == plots.entries[at]);
        assert forall|j: int| 0 <= j < at implies (#[trigger] after.entries[j]).0 != other by {
            assert(plots.entries[j].0 != other);
        }
        assert(after.is_position(other, at));
    }
}

/// Tearing down hands out the images once: a registry that was torn down
/// has none left to hand out.
pub proof fn lemma_teardown_hands_out_once(plots: PlotsView)
    ensures
        plots.teardown().pending() == Seq::<FileRenderView>::empty(),
        plots.teardown().teardown() == plots.teardown(),
{
}

/// Every image that tearing down hands out is the image of a record that is
/// not live.
pub proof fn lemma_renders_skip_live(entries: Seq<(LocationView, PlotWrapperView)>, k: int)
    requires
        0 <= k < renders(entries).len(),
    ensures
        exists|i: int|
            0 <= i < entries.len() && !(#[trigger] entries[i]).1.live && renders(entries)[k]
                == entries[i].1.plot.file_render(),
    decreases entries.len(),
{
    let before = entries.drop_last();
    if k < renders(before).len() {
        lemma_renders_skip_live(before, k);
        let i = choose|i: int|
            0 <= i < before.len() && !(#[trigger] before[i]).1.live && renders(before)[k]
                == before[i].1.plot.file_render();
        assert(entries[i] == before[i]);
    } else {
        assert(!entries[entries.len() - 1].1.live);
    }
}

/// Every record that is not live has its image among those that tearing down
/// hands out.
pub proof fn lemma_renders_hold_every_other(entries: Seq<(LocationView, PlotWrapperView)>, i: int)
    requires
        0 <= i < entries.len(),
        !entries[i].1.live,
    ensures
        exists|k: int|
            0 <= k < renders(entries).len() && #[trigger] renders(entries)[k]
                == entries[i].1.plot.file_render(),
    decreases entries.len(),
{
    let before = entries.drop_last();
    if i < before.len() {
        lemma_renders_hold_every_other(before, i);
        let k = choose|k: int|
            0 <= k < renders(before).len() && #[trigger] renders(before)[k]
                == before[i].1.plot.file_render();
        assert(renders(entries)[k] == entries[i].1.plot.file_render());
    } else {
        assert(renders(entries)[renders(before).len() as int] == entries[i].1.plot.file_render());
    }
}

impl View for Plots {
    type V = PlotsView;

    closed spec fn view(&self) -> PlotsView {
        PlotsView {
            entries: Seq::new(self.entries@.len(), |i: int| (self.entries@[i].0@, self.entries@[i].1@)),
            flushed: self.flushed,
        }
    }
}

impl Plots {
    /// Makes an empty registry.
    pub fn new() -> (r: Plots)
        ensures
            r@ == PlotsView::empty(),
    {
        let plots = Plots { entries: Vec::new(), flushed: false };
        assert(plots@.entries == PlotsView::empty().entries);
        plots
    }

    /// How many call sites have a record.
    pub fn len(&self) -> (r: usize)
        ensures
            r == self@.entries.len(),
    {
        self.entries.len()
    }

    /// Whether the registry was torn down.
    pub fn is_flushed(&self) -> (r: bool)
        ensures
            r == self@.flushed,
    {
        self.flushed
    }

    /// Looks the call site up.
    pub fn find(&self, location: &Location) -> (r: Option<usize>)
        ensures
            r is Some <==> self@.holds(location@),
            r matches Some(index) ==> self@.is_position(location@, index as int)
                && self@.position(location@) == index,
    {
        let n: usize = self.entries.len();
        for i in 0..n
            invariant
                n == self.entries.len(),
                forall|j: int| 0 <= j < i ==> (#[trigger] self@.entries[j]).0 != location@,
        {
            if self.entries[i].0 == *location {
                assert(self@.entries[i as int].0 == location@);
                assert(self@.is_position(location@, i as int));
                return Some(i);
            }
        }
        None
    }

    /// The record of the call site, if it has one.
    pub fn get(&self, location: &Location) -> (r: Option<&PlotWrapper>)
        ensures
            r is Some <==> self@.holds(location@),
            r matches Some(record) ==> record@ == self@.entries[self@.position(location@)].1,
    {
        match self.find(location) {
            Some(index) => Some(&self.entries[index].1),
            None => None,
        }
    }

    /// Looks the call site up and makes its record if it has none. Hands back
    /// the place of the record, or nothing if the registry was torn down.
    pub fn get_or_create<const N: usize>(
        &mut self,
        location: Location,
        names: [&'static str; N],
        options: Options,
    ) -> (r: Option<usize>)
        ensures
            final(self)@ == old(self)@.get_or_create(location@, names_of(names@), options@),
            r is Some <==> !old(self)@.flushed,
            r matches Some(index) ==> final(self)@.is_position(location@, index as int)
                && final(self)@.position(location@) == index,
    {
        if self.flushed {
            return None;
        }
        match self.find(&location) {
            Some(index) => Some(index),
            None => {
                let index: usize = self.entries.len();
                self.entries.push((location, PlotWrapper::new(names, location, options)));
                assert(self@.entries == old(self)@.get_or_create(
                    location@,
                    names_of(names@),
                    options@,
                ).entries);
                assert(self@.is_position(location@, index as int));
                Some(index)
            },
        }
    }

    /// One invocation of a call site: its record, made if this is the first
    /// invocation, records the samples. Hands back the frame to draw if the
    /// record is live. A registry that was torn down does nothing.
    pub fn plot<const N: usize>(
        &mut self,
        location: Location,
        names: [&'static str; N],
        options: Options,
        samples: [Sample; N],
    ) -> (r: Option<Chart>)
        requires
            forall|i: int|
                0 <= i < old(self)@.entries.len() && (#[trigger] old(self)@.entries[i]).0
                    == location@ ==> {
                    &&& old(self)@.entries[i].1.plot.names.len() == N
                    &&& old(self)@.entries[i].1.plot.iteration < u64::MAX
                },
        ensures
            final(self)@ == old(self)@.plot(location@, names_of(names@), options@, samples@),
            final(self)@.entries.len() == old(self)@.get_or_create(
                location@,
                names_of(names@),
                options@,
            ).entries.len(),
            old(self)@.flushed ==> r is None,
            !old(self)@.flushed ==> final(self)@.is_position(
                location@,
                final(self)@.position(location@),
            ),
            !old(self)@.flushed ==> {
                let record = final(self)@.entries[final(self)@.position(location@)].1;
                &&& r is Some <==> record.live
                &&& r matches Some(chart) ==> Some(chart@) == record.frame()
            },
    {
        match self.get_or_create(location, names, options) {
            None => None,
            Some(index) => {
                let ghost found = self@;
                assert(found.entries[index as int].1.plot.names.len() == N
                    && found.entries[index as int].1.plot.iteration < u64::MAX) by {
                    if old(self)@.holds(location@) {
                        assert(found == old(self)@);
                    } else {
                        assert(index == old(self)@.entries.len());
                    }
                }
                let frame = self.entries[index].1.record(samples);
                assert(self@.entries == found.entries.update(
                    index as int,
                    (location@, found.entries[index as int].1.record(samples@)),
                ));
                assert(self@.is_position(location@, index as int));
                frame
            },
        }
    }

    /// Tears the registry down: hands out the image of every record that is
    /// not live, in the order of the records, and marks the registry. A
    /// registry that was torn down before hands out nothing.
    pub fn teardown(&mut self) -> (r: Vec<FileRender>)
        ensures
            final(self)@ == old(self)@.teardown(),
            views_of(r@) == old(self)@.pending(),
    {
        let mut out: Vec<FileRender> = Vec::new();
        if self.flushed {
            assert(views_of(out@) == old(self)@.pending());
            return out;
        }
        let n: usize = self.entries.len();
        for i in 0..n
            invariant
                n == self.entries.len(),
                *self == *old(self),
                views_of(out@) == renders(self@.entries.take(i as int)),
        {
            assert(self@.entries.take(i + 1).drop_last() == self@.entries.take(i as int));
            match self.entries[i].1.plot_to_file() {
                Some(render) => {
                    out.push(render);
                    assert(views_of(out@) == renders(self@.entries.take(i + 1)));
                },
                None => {},
            }
        }
        assert(self@.entries.take(n as int) == self@.entries);
        self.flushed = true;
        out
    }
}

} // verus!
