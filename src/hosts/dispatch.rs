//! From a host to its provider: one entry point for every service.
use crate::client::{Exchange, Expect, Reply, Step, StepView};
use crate::hosts::enums::Host;
use crate::hosts::fileio::{self, FileioState};
use crate::hosts::gofile::{self, GofileState, GofileStateView};
use crate::hosts::pixeldrain::{self, PixeldrainState, PixeldrainStateView};
use crate::maps::{section_or_empty, NestedMap};
use vstd::prelude::*;

verus! {

/// The state of whichever provider runs.
pub enum HostState {
    Fileio(FileioState),
    Gofile(GofileState),
    Pixeldrain(PixeldrainState),
}

pub enum HostStateView {
    Fileio(FileioState),
    Gofile(GofileStateView),
    Pixeldrain(PixeldrainStateView),
}

impl View for HostState {
    type V = HostStateView;

    open spec fn view(&self) -> HostStateView {
        match self {
            HostState::Fileio(st) => HostStateView::Fileio(*st),
            HostState::Gofile(st) => HostStateView::Gofile(st@),
            HostState::Pixeldrain(st) => HostStateView::Pixeldrain(st@),
        }
    }
}

pub open spec fn lift<V>(step: StepView<V>, f: spec_fn(V) -> HostStateView) -> StepView<HostStateView> {
    match step {
        StepView::Next(st) => StepView::Next(f(st)),
        StepView::Done(r) => StepView::Done(r),
    }
}

pub type Sections = Map<Seq<char>, Map<Seq<char>, Seq<char>>>;

/// The first step of `host`'s provider on a file of `file_size` bytes.
pub open spec fn start_model(host: Host, file_size: usize, cfg: Sections, s: Sections) -> StepView<HostStateView> {
    match host {
        Host::Fileio => lift(fileio::start_model(file_size), |st| HostStateView::Fileio(st)),
        Host::Gofile => StepView::Next(HostStateView::Gofile(gofile::start_model(cfg, s))),
        Host::Pixeldrain => lift(pixeldrain::start_model(file_size, cfg, s), |st| HostStateView::Pixeldrain(st)),
    }
}

/// The session store and next step of the running provider.
pub open spec fn resume_model(st: HostStateView, reply: Reply, s: Sections) -> (Sections, StepView<HostStateView>) {
    match st {
        HostStateView::Fileio(_) => (s, lift(fileio::resume_model(reply), |st| HostStateView::Fileio(st))),
        HostStateView::Gofile(g) => {
            let (s2, step) = gofile::resume_model(g, reply, s);
            (s2, lift(step, |st| HostStateView::Gofile(st)))
        },
        HostStateView::Pixeldrain(p) => {
            let (s2, step) = pixeldrain::resume_model(p, reply, s);
            (s2, lift(step, |st| HostStateView::Pixeldrain(st)))
        },
    }
}

fn wrap_fileio(step: Step<FileioState>) -> (r: Step<HostState>)
    ensures
        r@ == lift(step@, |st| HostStateView::Fileio(st)),
{
    match step {
        Step::Next(st) => Step::Next(HostState::Fileio(st)),
        Step::Done(r) => Step::Done(r),
    }
}

fn wrap_gofile(step: Step<GofileState>) -> (r: Step<HostState>)
    ensures
        r@ == lift(step@, |st| HostStateView::Gofile(st)),
{
    match step {
        Step::Next(st) => Step::Next(HostState::Gofile(st)),
        Step::Done(r) => Step::Done(r),
    }
}

fn wrap_pixeldrain(step: Step<PixeldrainState>) -> (r: Step<HostState>)
    ensures
        r@ == lift(step@, |st| HostStateView::Pixeldrain(st)),
{
    match step {
        Step::Next(st) => Step::Next(HostState::Pixeldrain(st)),
        Step::Done(r) => Step::Done(r),
    }
}

/// Starts `host`'s provider on a file of `file_size` bytes.
pub fn start(host: Host, file_size: usize, cfg: &NestedMap, s: &NestedMap) -> (r: Step<HostState>)
    requires
        cfg.wf(),
        s.wf(),
    ensures
        r@ == start_model(host, file_size, cfg@, s@),
{
    match host {
        Host::Fileio => wrap_fileio(fileio::start(file_size)),
        Host::Gofile => Step::Next(HostState::Gofile(gofile::start(cfg, s))),
        Host::Pixeldrain => wrap_pixeldrain(pixeldrain::start(file_size, cfg, s)),
    }
}

/// Hands `reply` to the running provider.
pub fn resume(state: HostState, reply: Reply, s: &mut NestedMap) -> (r: Step<HostState>)
    requires
        old(s).wf(),
    ensures
        final(s).wf(),
        (final(s)@, r@) == resume_model(state@, reply, old(s)@),
{
    match state {
        HostState::Fileio(st) => wrap_fileio(fileio::resume(st, reply)),
        HostState::Gofile(st) => wrap_gofile(gofile::resume(st, reply, s)),
        HostState::Pixeldrain(st) => wrap_pixeldrain(pixeldrain::resume(st, reply, s)),
    }
}

impl HostState {
    /// The exchange the running provider waits on.
    pub fn exchange(&self, file_path: &str) -> (r: Exchange)
        ensures
            self matches HostState::Fileio(_) ==> r.request@ == fileio::request_model(file_path@)
                && r.expect == Expect::FileioUpload,
            self matches HostState::Gofile(st) ==> r.request@ == gofile::request_model(st@, file_path@)
                && r.expect == gofile::expect_model(st@),
            self matches HostState::Pixeldrain(st) ==> r.request@ == pixeldrain::request_model(st@, file_path@)
                && r.expect == pixeldrain::expect_model(st@),
    {
        match self {
            HostState::Fileio(st) => st.exchange(file_path),
            HostState::Gofile(st) => st.exchange(file_path),
            HostState::Pixeldrain(st) => st.exchange(file_path),
        }
    }
}

/// The part of the session store that the provider in `st` owns; file.io
/// owns none.
pub open spec fn owned_section(st: HostStateView) -> Option<Seq<char>> {
    match st {
        HostStateView::Fileio(_) => None,
        HostStateView::Gofile(_) => Some(gofile::host()),
        HostStateView::Pixeldrain(_) => Some(pixeldrain::host()),
    }
}

/// A provider reads and writes only its own host's part of the session
/// store: every other host's part is left as it was.
pub proof fn lemma_provider_keeps_other_sections(st: HostStateView, reply: Reply, s: Sections, other: Seq<char>)
    requires
        owned_section(st) != Some(other),
    ensures
        section_or_empty(resume_model(st, reply, s).0, other) == section_or_empty(s, other),
{
}

} // verus!
