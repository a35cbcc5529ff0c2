//! Watch-mode decisions: which filesystem events trigger a rebuild,
//! which paths are filtered out to avoid feedback loops, the scoped
//! rebuild each qualifying path gets, and the supervisor state machine
//! for the child process that is restarted after a successful rebuild.
use vstd::prelude::*;
use crate::bytes::{contains_sub, copy_bytes, spec_contains_sub};
use crate::compile::{TranspileOptions, TranspileOptionsV};
use crate::options::view_bytes_list;
use crate::pathing::{path_starts_with, spec_path_starts_with, spec_strip_path_prefix, strip_path_prefix};
use crate::words::{spec_w_node_modules, spec_w_turbo_dir, w_node_modules, w_turbo_dir};

verus! {

/// The kind of a filesystem event, as the watcher reports it.
#[derive(PartialEq, Eq, Structural, Debug, Clone, Copy)]
pub enum FsEventKind {
    Create,
    /// A change to a file's content.
    ModifyData,
    /// A pure metadata change of no further detail.
    ModifyMetadataAny,
    /// A metadata change of some specific detail.
    ModifyMetadataOther,
    /// Some other modification (a rename, an unclassified change).
    ModifyOther,
    Remove,
    Access,
    Other,
}

pub open spec fn spec_is_modify(kind: FsEventKind) -> bool {
    kind == FsEventKind::ModifyData || kind == FsEventKind::ModifyMetadataAny || kind
        == FsEventKind::ModifyMetadataOther || kind == FsEventKind::ModifyOther
}

pub open spec fn spec_is_create(kind: FsEventKind) -> bool {
    kind == FsEventKind::Create
}

/// Whether an event is dropped without a rebuild: everything that is
/// neither a modification nor a creation, and every pure metadata
/// change.
pub open spec fn spec_ignore_watch_event(kind: FsEventKind) -> bool {
    (!spec_is_modify(kind) && !spec_is_create(kind)) || kind == FsEventKind::ModifyMetadataAny
        || kind == FsEventKind::ModifyMetadataOther
}

/// Decides whether a filesystem event triggers no rebuild at all.
pub fn check_to_ignore_watch_event(kind: FsEventKind) -> (r: bool)
    ensures
        r == spec_ignore_watch_event(kind),
{
    let is_modify = match kind {
        FsEventKind::ModifyData => true,
        FsEventKind::ModifyMetadataAny => true,
        FsEventKind::ModifyMetadataOther => true,
        FsEventKind::ModifyOther => true,
        _ => false,
    };
    let is_create = match kind {
        FsEventKind::Create => true,
        _ => false,
    };
    if !is_modify && !is_create {
        return true;
    }
    match kind {
        FsEventKind::ModifyMetadataAny => true,
        FsEventKind::ModifyMetadataOther => true,
        _ => false,
    }
}

/// Whether a changed path is dropped: it lies under the output
/// directory (relative to the working directory), under the tool cache
/// directory, or under `node_modules`.
pub open spec fn spec_ignore_watch_path(path: Seq<u8>, app_dir: Seq<u8>, out_dir: Seq<u8>) -> bool {
    (spec_path_starts_with(path, app_dir) && spec_path_starts_with(
        spec_strip_path_prefix(path, app_dir),
        out_dir,
    )) || spec_contains_sub(path, spec_w_turbo_dir()) || spec_contains_sub(
        path,
        spec_w_node_modules(),
    )
}

/// Decides whether a changed path is dropped to avoid rebuild feedback
/// loops. The path is expected canonical, as the watcher hands it out.
pub fn check_to_ignore_watch_path(path: &[u8], app_dir: &[u8], out_dir: &[u8]) -> (r: bool)
    ensures
        r == spec_ignore_watch_path(path@, app_dir@, out_dir@),
{
    if path_starts_with(path, app_dir) {
        let rel = strip_path_prefix(path, app_dir);
        if path_starts_with(rel.as_slice(), out_dir) {
            return true;
        }
    }
    let turbo = w_turbo_dir();
    if contains_sub(path, turbo.as_slice()) {
        return true;
    }
    let nm = w_node_modules();
    contains_sub(path, nm.as_slice())
}

/// The scoped rebuild one changed path gets: just that path, the same
/// output and configuration, with cleaning and bundling disabled.
pub open spec fn spec_scoped_rebuild(
    path: Seq<u8>,
    out_dir: Seq<u8>,
    config_path: Seq<u8>,
) -> TranspileOptionsV {
    TranspileOptionsV {
        input_path: path,
        out_dir: out_dir,
        config_path: config_path,
        clean: false,
        bundle: false,
    }
}

/// The rebuilds one event yields: none when the event kind is ignored,
/// else exactly one scoped rebuild per path that survives the path
/// filter, in event order.
pub open spec fn spec_watch_rebuilds(
    kind: FsEventKind,
    paths: Seq<Seq<u8>>,
    app_dir: Seq<u8>,
    out_dir: Seq<u8>,
    config_path: Seq<u8>,
) -> Seq<TranspileOptionsV>
    decreases paths.len(),
{
    if spec_ignore_watch_event(kind) {
        Seq::empty()
    } else if paths.len() == 0 {
        Seq::empty()
    } else {
        let rest = spec_watch_rebuilds(
            kind,
            paths.subrange(1, paths.len() as int),
            app_dir,
            out_dir,
            config_path,
        );
        if spec_ignore_watch_path(paths[0], app_dir, out_dir) {
            rest
        } else {
            seq![spec_scoped_rebuild(paths[0], out_dir, config_path)] + rest
        }
    }
}

pub open spec fn view_rebuilds(s: Seq<TranspileOptions>) -> Seq<TranspileOptionsV> {
    Seq::new(s.len(), |i: int| s[i]@)
}

/// Turns one filesystem event into its rebuilds: nothing for an ignored
/// kind; otherwise one rebuild per surviving path, scoped to that path,
/// with cleaning and bundling off. The paths are expected canonical.
pub fn plan_watch_rebuilds(
    kind: FsEventKind,
    paths: &Vec<Vec<u8>>,
    app_dir: &[u8],
    out_dir: &[u8],
    config_path: &[u8],
) -> (r: Vec<TranspileOptions>)
    ensures
        view_rebuilds(r@) == spec_watch_rebuilds(
            kind,
            view_bytes_list(paths@),
            app_dir@,
            out_dir@,
            config_path@,
        ),
{
    let mut out: Vec<TranspileOptions> = Vec::new();
    if check_to_ignore_watch_event(kind) {
        assert(view_rebuilds(out@) =~= spec_watch_rebuilds(
            kind,
            view_bytes_list(paths@),
            app_dir@,
            out_dir@,
            config_path@,
        ));
        return out;
    }
    let ghost full = view_bytes_list(paths@);
    let n = paths.len();
    let mut i: usize = 0;
    proof {
        assert(full.subrange(0, n as int) =~= full);
    }
    while i < n
        invariant
            0 <= i <= n,
            n == full.len(),
            full == view_bytes_list(paths@),
            !spec_ignore_watch_event(kind),
            spec_watch_rebuilds(kind, full, app_dir@, out_dir@, config_path@) == view_rebuilds(
                out@,
            ) + spec_watch_rebuilds(
                kind,
                full.subrange(i as int, n as int),
                app_dir@,
                out_dir@,
                config_path@,
            ),
        decreases n - i,
    {
        let ghost rem = full.subrange(i as int, n as int);
        proof {
            assert(rem[0] == full[i as int]);
            assert(rem.subrange(1, rem.len() as int) =~= full.subrange(i + 1 as int, n as int));
        }
        let path = &paths[i];
        assert(path@ == full[i as int]);
        if !check_to_ignore_watch_path(path.as_slice(), app_dir, out_dir) {
            let ghost before = view_rebuilds(out@);
            out.push(
                TranspileOptions {
                    input_path: copy_bytes(path.as_slice()),
                    out_dir: copy_bytes(out_dir),
                    config_path: copy_bytes(config_path),
                    clean: false,
                    bundle: false,
                },
            );
            proof {
                assert(view_rebuilds(out@) =~= before.push(
                    spec_scoped_rebuild(full[i as int], out_dir@, config_path@),
                ));
                assert(before.push(spec_scoped_rebuild(full[i as int], out_dir@, config_path@))
                    =~= before + seq![
                    spec_scoped_rebuild(full[i as int], out_dir@, config_path@),
                ]);
                assert((before + seq![
                    spec_scoped_rebuild(full[i as int], out_dir@, config_path@),
                ]) + spec_watch_rebuilds(
                    kind,
                    full.subrange(i + 1 as int, n as int),
                    app_dir@,
                    out_dir@,
                    config_path@,
                ) =~= before + (seq![
                    spec_scoped_rebuild(full[i as int], out_dir@, config_path@),
                ] + spec_watch_rebuilds(
                    kind,
                    full.subrange(i + 1 as int, n as int),
                    app_dir@,
                    out_dir@,
                    config_path@,
                )));
            }
        }
        i += 1;
    }
    proof {
        assert(full.subrange(n as int, n as int) =~= Seq::<Seq<u8>>::empty());
        assert(view_rebuilds(out@) + Seq::<TranspileOptionsV>::empty() =~= view_rebuilds(out@));
    }
    out
}

/// The supervisor of the consumer child process.
#[derive(PartialEq, Eq, Structural, Debug, Clone, Copy)]
pub enum SupervisorState {
    Stopped,
    Running,
}

/// What the dispatcher tells the supervisor.
#[derive(PartialEq, Eq, Structural, Debug, Clone, Copy)]
pub enum SupervisorEvent {
    /// Watching has begun and the consumer command is configured.
    Start,
    /// A rebuild finished successfully.
    RebuildSucceeded,
    /// The interrupt signal arrived.
    Interrupt,
}

/// What the supervisor then does to the child process group.
#[derive(PartialEq, Eq, Structural, Debug, Clone, Copy)]
pub enum SupervisorAction {
    /// Spawn the child process group.
    Spawn,
    /// Kill the group and spawn it afresh.
    Restart,
    /// Kill the group and exit the tool.
    KillAndExit,
    /// Exit the tool; no group is running.
    Exit,
    /// Nothing to do.
    Stay,
}

/// One step of the supervisor: a start spawns the child; a successful
/// rebuild restarts it while it runs; the interrupt kills the running
/// group before the tool exits — never after.
pub open spec fn spec_supervisor_step(state: SupervisorState, event: SupervisorEvent) -> (
    SupervisorState,
    SupervisorAction,
) {
    match (state, event) {
        (SupervisorState::Stopped, SupervisorEvent::Start) => (
            SupervisorState::Running,
            SupervisorAction::Spawn,
        ),
        (SupervisorState::Running, SupervisorEvent::RebuildSucceeded) => (
            SupervisorState::Running,
            SupervisorAction::Restart,
        ),
        (SupervisorState::Running, SupervisorEvent::Interrupt) => (
            SupervisorState::Stopped,
            SupervisorAction::KillAndExit,
        ),
        (SupervisorState::Stopped, SupervisorEvent::Interrupt) => (
            SupervisorState::Stopped,
            SupervisorAction::Exit,
        ),
        _ => (state, SupervisorAction::Stay),
    }
}

/// Advances the supervisor by one event.
pub fn supervisor_step(state: SupervisorState, event: SupervisorEvent) -> (r: (
    SupervisorState,
    SupervisorAction,
))
    ensures
        r == spec_supervisor_step(state, event),
{
    match (state, event) {
        (SupervisorState::Stopped, SupervisorEvent::Start) => (
            SupervisorState::Running,
            SupervisorAction::Spawn,
        ),
        (SupervisorState::Running, SupervisorEvent::RebuildSucceeded) => (
            SupervisorState::Running,
            SupervisorAction::Restart,
        ),
        (SupervisorState::Running, SupervisorEvent::Interrupt) => (
            SupervisorState::Stopped,
            SupervisorAction::KillAndExit,
        ),
        (SupervisorState::Stopped, SupervisorEvent::Interrupt) => (
            SupervisorState::Stopped,
            SupervisorAction::Exit,
        ),
        (s, _) => (s, SupervisorAction::Stay),
    }
}

/// True when the rebuild list holds a rebuild scoped to `path`.
pub open spec fn spec_rebuild_for(rebuilds: Seq<TranspileOptionsV>, path: Seq<u8>) -> bool {
    exists|i: int| 0 <= i < rebuilds.len() && (#[trigger] rebuilds[i]).input_path == path
}

/// What every rebuild of one event must look like: scoped to one of the
/// event's paths that survives the path filter, with cleaning and
/// bundling off and the output and configuration unchanged.
pub open spec fn spec_scoped_to(
    x: TranspileOptionsV,
    paths: Seq<Seq<u8>>,
    app_dir: Seq<u8>,
    out_dir: Seq<u8>,
    config_path: Seq<u8>,
) -> bool {
    &&& x.clean == false
    &&& x.bundle == false
    &&& x.out_dir == out_dir
    &&& x.config_path == config_path
    &&& !spec_ignore_watch_path(x.input_path, app_dir, out_dir)
    &&& exists|i: int| 0 <= i < paths.len() && #[trigger] paths[i] == x.input_path
}

/// LAW: an ignored event kind (a pure metadata change among them)
/// triggers no rebuild; every rebuild of a surviving event is scoped to
/// one surviving changed path — so no path under the output directory
/// ever triggers one; every surviving path gets a rebuild; and when the
/// event's paths are distinct, each gets exactly one.
pub proof fn lemma_watch_filtering(
    kind: FsEventKind,
    paths: Seq<Seq<u8>>,
    app_dir: Seq<u8>,
    out_dir: Seq<u8>,
    config_path: Seq<u8>,
)
    ensures
        spec_ignore_watch_event(kind) ==> spec_watch_rebuilds(
            kind,
            paths,
            app_dir,
            out_dir,
            config_path,
        ) == Seq::<TranspileOptionsV>::empty(),
        forall|j: int|
            #![trigger spec_watch_rebuilds(kind, paths, app_dir, out_dir, config_path)[j]]
            0 <= j < spec_watch_rebuilds(kind, paths, app_dir, out_dir, config_path).len()
                ==> spec_scoped_to(
                spec_watch_rebuilds(kind, paths, app_dir, out_dir, config_path)[j],
                paths,
                app_dir,
                out_dir,
                config_path,
            ),
        !spec_ignore_watch_event(kind) ==> (forall|i: int|
            0 <= i < paths.len() && !spec_ignore_watch_path(#[trigger] paths[i], app_dir, out_dir)
                ==> spec_rebuild_for(
                spec_watch_rebuilds(kind, paths, app_dir, out_dir, config_path),
                paths[i],
            )),
        (forall|i: int, j: int| 0 <= i < j < paths.len() ==> paths[i] != paths[j]) ==> (forall|
            a: int,
            b: int,
        |
            #![trigger spec_watch_rebuilds(kind, paths, app_dir, out_dir, config_path)[a],
                spec_watch_rebuilds(kind, paths, app_dir, out_dir, config_path)[b]]
            0 <= a < b < spec_watch_rebuilds(kind, paths, app_dir, out_dir, config_path).len()
                ==> spec_watch_rebuilds(kind, paths, app_dir, out_dir, config_path)[a].input_path
                != spec_watch_rebuilds(kind, paths, app_dir, out_dir, config_path)[b].input_path),
    decreases paths.len(),
{
    let r = spec_watch_rebuilds(kind, paths, app_dir, out_dir, config_path);
    if spec_ignore_watch_event(kind) || paths.len() == 0 {
        assert(r.len() == 0);
    } else {
        let tail = paths.subrange(1, paths.len() as int);
        let rest = spec_watch_rebuilds(kind, tail, app_dir, out_dir, config_path);
        lemma_watch_filtering(kind, tail, app_dir, out_dir, config_path);
        let keep0 = !spec_ignore_watch_path(paths[0], app_dir, out_dir);
        let off: int = if keep0 { 1 } else { 0 };
        assert forall|j: int| 0 <= j < r.len() implies spec_scoped_to(
            #[trigger] r[j],
            paths,
            app_dir,
            out_dir,
            config_path,
        ) by {
            if keep0 && j == 0 {
                assert(r[0] == spec_scoped_rebuild(paths[0], out_dir, config_path));
                assert(paths[0] == r[0].input_path);
            } else {
                assert(r[j] == rest[j - off]);
                assert(spec_scoped_to(rest[j - off], tail, app_dir, out_dir, config_path));
                let x = rest[j - off];
                let i0 = choose|i: int| 0 <= i < tail.len() && #[trigger] tail[i] == x.input_path;
                assert(paths[i0 + 1] == x.input_path);
            }
        }
        assert forall|i: int|
            0 <= i < paths.len() && !spec_ignore_watch_path(
                #[trigger] paths[i],
                app_dir,
                out_dir,
            ) implies spec_rebuild_for(r, paths[i]) by {
            if i == 0 {
                assert(r[0].input_path == paths[0]);
            } else {
                assert(tail[i - 1] == paths[i]);
                assert(spec_rebuild_for(rest, tail[i - 1]));
                let k = choose|k: int|
                    0 <= k < rest.len() && (#[trigger] rest[k]).input_path == tail[i - 1];
                assert(r[k + off].input_path == paths[i]);
            }
        }
        if forall|i: int, j: int| 0 <= i < j < paths.len() ==> paths[i] != paths[j] {
            assert forall|i: int, j: int| 0 <= i < j < tail.len() implies tail[i] != tail[j] by {
                assert(tail[i] == paths[i + 1] && tail[j] == paths[j + 1]);
            }
            assert forall|a: int, b: int| 0 <= a < b < r.len() implies (#[trigger] r[a]).input_path
                != (#[trigger] r[b]).input_path by {
                if keep0 && a == 0 {
                    assert(r[0].input_path == paths[0]);
                    assert(r[b] == rest[b - 1]);
                    assert(spec_scoped_to(rest[b - 1], tail, app_dir, out_dir, config_path));
                    let x = rest[b - 1];
                    let i0 = choose|i: int|
                        0 <= i < tail.len() && #[trigger] tail[i] == x.input_path;
                    assert(paths[i0 + 1] == x.input_path);
                    assert(paths[0] != paths[i0 + 1]);
                } else {
                    assert(r[a] == rest[a - off] && r[b] == rest[b - off]);
                }
            }
        }
    }
}

} // verus!
