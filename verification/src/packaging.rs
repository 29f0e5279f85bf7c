use vstd::prelude::*;
use vstd::utf8::{decode_utf8, valid_utf8};
use crate::commands::{container_args, image_args, texts};
use crate::error::{Error, Stage};
use crate::text::{parse_instance_id, trimmed};

verus! {

/// Where the packaging of one image stands. Every phase but the last waits
/// for one piece of outside work to end.
#[derive(Clone, Copy, Debug, PartialEq, Eq, Structural)]
pub enum PackagingPhase {
    Pulling,
    Creating,
    Exporting,
    Persisting,
    /// The container is being removed; `failure` is how the pipeline itself
    /// went, `None` for success.
    Removing { failure: Option<Error> },
    /// Nothing is left to do. `cleanup_failed` is worth a warning only.
    Done { failure: Option<Error>, cleanup_failed: bool },
}

/// How one piece of outside work ended.
#[derive(Clone, Copy, Debug, PartialEq, Eq, Structural)]
pub enum ToolEvent {
    Succeeded,
    /// The program could not be started, or it reported failure.
    Failed,
    /// The program succeeded and what it printed is no text.
    Unreadable,
}

/// The stage that a phase runs.
pub open spec fn stage_of(phase: PackagingPhase) -> Stage {
    match phase {
        PackagingPhase::Pulling => Stage::Pull,
        PackagingPhase::Creating => Stage::Create,
        PackagingPhase::Exporting => Stage::Export,
        _ => Stage::Persist,
    }
}

/// A container exists that the pipeline has yet to remove.
pub open spec fn container_pending(phase: PackagingPhase) -> bool {
    phase is Exporting || phase is Persisting || phase is Removing
}

/// The transition function of the pipeline. Before a container exists a
/// failure ends it at once. From then on every path, failed or not, goes
/// through the removal, and how the removal ends changes nothing of the
/// result. Only the output of the creation is read, so only there a
/// successful run can be unreadable.
pub open spec fn pack_step(phase: PackagingPhase, event: ToolEvent) -> PackagingPhase {
    let failed = Some(Error::ExternalTool { stage: stage_of(phase) });
    match phase {
        PackagingPhase::Pulling => if event is Failed {
            PackagingPhase::Done { failure: failed, cleanup_failed: false }
        } else {
            PackagingPhase::Creating
        },
        PackagingPhase::Creating => match event {
            ToolEvent::Succeeded => PackagingPhase::Exporting,
            ToolEvent::Failed => PackagingPhase::Done { failure: failed, cleanup_failed: false },
            ToolEvent::Unreadable => PackagingPhase::Done {
                failure: Some(Error::InvalidOutput),
                cleanup_failed: false,
            },
        },
        PackagingPhase::Exporting => if event is Failed {
            PackagingPhase::Removing { failure: failed }
        } else {
            PackagingPhase::Persisting
        },
        PackagingPhase::Persisting => if event is Failed {
            PackagingPhase::Removing { failure: failed }
        } else {
            PackagingPhase::Removing { failure: None }
        },
        PackagingPhase::Removing { failure } => PackagingPhase::Done {
            failure,
            cleanup_failed: event is Failed,
        },
        PackagingPhase::Done { .. } => phase,
    }
}

/// Moves the pipeline on by how the work of `phase` ended.
pub fn pack_advance(phase: PackagingPhase, event: ToolEvent) -> (next: PackagingPhase)
    ensures
        next == pack_step(phase, event),
{
    let failed: bool = match event {
        ToolEvent::Failed => true,
        _ => false,
    };
    match phase {
        PackagingPhase::Pulling => if failed {
            PackagingPhase::Done {
                failure: Some(Error::ExternalTool { stage: Stage::Pull }),
                cleanup_failed: false,
            }
        } else {
            PackagingPhase::Creating
        },
        PackagingPhase::Creating => match event {
            ToolEvent::Succeeded => PackagingPhase::Exporting,
            ToolEvent::Failed => PackagingPhase::Done {
                failure: Some(Error::ExternalTool { stage: Stage::Create }),
                cleanup_failed: false,
            },
            ToolEvent::Unreadable => PackagingPhase::Done {
                failure: Some(Error::InvalidOutput),
                cleanup_failed: false,
            },
        },
        PackagingPhase::Exporting => if failed {
            PackagingPhase::Removing {
                failure: Some(Error::ExternalTool { stage: Stage::Export }),
            }
        } else {
            PackagingPhase::Persisting
        },
        PackagingPhase::Persisting => if failed {
            PackagingPhase::Removing {
                failure: Some(Error::ExternalTool { stage: Stage::Persist }),
            }
        } else {
            PackagingPhase::Removing { failure: None }
        },
        PackagingPhase::Removing { failure } => PackagingPhase::Done {
            failure,
            cleanup_failed: failed,
        },
        PackagingPhase::Done { .. } => phase,
    }
}

/// The phase after each of `events` was delivered in turn, from `phase` on.
pub open spec fn pack_run(phase: PackagingPhase, events: Seq<ToolEvent>) -> PackagingPhase
    decreases events.len(),
{
    if events.len() == 0 {
        phase
    } else {
        pack_run(pack_step(phase, events[0]), events.drop_first())
    }
}

/// How often the removal of the container was run while `events` were
/// delivered in turn, from `phase` on.
pub open spec fn removals(phase: PackagingPhase, events: Seq<ToolEvent>) -> nat
    decreases events.len(),
{
    if events.len() == 0 {
        0
    } else {
        let here: nat = if phase is Removing {
            1
        } else {
            0
        };
        here + removals(pack_step(phase, events[0]), events.drop_first())
    }
}

/// A finished pipeline stays as it is and runs nothing more.
pub proof fn done_is_final(phase: PackagingPhase, events: Seq<ToolEvent>)
    requires
        phase is Done,
    ensures
        pack_run(phase, events) == phase,
        removals(phase, events) == 0,
    decreases events.len(),
{
    if events.len() > 0 {
        done_is_final(phase, events.drop_first());
    }
}

/// Once a container exists, a pipeline that has come to its end has run the
/// removal exactly once, whether export and persisting succeeded or not.
pub proof fn container_removed_exactly_once(phase: PackagingPhase, events: Seq<ToolEvent>)
    requires
        container_pending(phase),
        pack_run(phase, events) is Done,
    ensures
        removals(phase, events) == 1,
    decreases events.len(),
{
    if events.len() > 0 {
        let next = pack_step(phase, events[0]);
        if phase is Removing {
            done_is_final(next, events.drop_first());
        } else {
            container_removed_exactly_once(next, events.drop_first());
        }
    }
}

/// Whatever happens, the removal is run at most once.
pub proof fn removal_at_most_once(phase: PackagingPhase, events: Seq<ToolEvent>)
    ensures
        removals(phase, events) <= 1,
    decreases events.len(),
{
    if events.len() > 0 {
        let next = pack_step(phase, events[0]);
        if phase is Removing {
            done_is_final(next, events.drop_first());
        } else {
            removal_at_most_once(next, events.drop_first());
        }
    }
}

/// A pull or a creation that fails ends the pipeline on the spot, with the
/// error of that stage: nothing further is run, no removal either.
pub proof fn early_failure_runs_nothing_more(
    phase: PackagingPhase,
    event: ToolEvent,
    rest: Seq<ToolEvent>,
)
    requires
        phase is Pulling || phase is Creating,
        event is Failed,
    ensures
        pack_step(phase, event) == (PackagingPhase::Done {
            failure: Some(Error::ExternalTool { stage: stage_of(phase) }),
            cleanup_failed: false,
        }),
        pack_run(phase, seq![event] + rest) == pack_step(phase, event),
        removals(phase, seq![event] + rest) == 0,
{
    let all = seq![event] + rest;
    assert(all[0] == event);
    assert(all.drop_first() =~= rest);
    done_is_final(pack_step(phase, event), rest);
}

/// How the removal ends never changes the result of the pipeline: a failed
/// removal neither hides a failure nor fails a success.
pub proof fn cleanup_keeps_result(failure: Option<Error>, event: ToolEvent)
    ensures
        pack_step(PackagingPhase::Removing { failure }, event) == (PackagingPhase::Done {
            failure,
            cleanup_failed: event is Failed,
        }),
{
}

/// A pipeline ends in success only by pull, creation, export and persisting
/// succeeding in that order, followed by the removal.
pub proof fn success_needs_every_stage(events: Seq<ToolEvent>)
    requires
        events.len() == 5,
        pack_run(PackagingPhase::Pulling, events) matches PackagingPhase::Done { failure, .. }
            && failure is None,
    ensures
        !(events[0] is Failed),
        events[1] is Succeeded,
        !(events[2] is Failed),
        !(events[3] is Failed),
{
    let at0 = PackagingPhase::Pulling;
    let e1 = events.drop_first();
    let at1 = pack_step(at0, events[0]);
    let e2 = e1.drop_first();
    let at2 = pack_step(at1, e1[0]);
    let e3 = e2.drop_first();
    let at3 = pack_step(at2, e2[0]);
    let e4 = e3.drop_first();
    let at4 = pack_step(at3, e3[0]);
    let e5 = e4.drop_first();
    let at5 = pack_step(at4, e4[0]);
    assert(pack_run(at0, events) == pack_run(at1, e1));
    assert(pack_run(at1, e1) == pack_run(at2, e2));
    assert(pack_run(at2, e2) == pack_run(at3, e3));
    assert(pack_run(at3, e3) == pack_run(at4, e4));
    assert(pack_run(at4, e4) == pack_run(at5, e5));
    assert(pack_run(at5, e5) == at5);
    if at1 is Done {
        done_is_final(at1, e1);
    }
    if at2 is Done {
        done_is_final(at2, e2);
    }
}

/// What the caller is to do for the pipeline.
#[derive(Debug)]
pub enum PackagingAction {
    /// Run the image tool with these arguments and wait for it; where
    /// `capture_output` is set, what it prints is wanted back.
    RunTool { args: Vec<String>, capture_output: bool },
    /// Run the image tool with these arguments and stream what it prints
    /// through the fast compressor into a fresh temporary file.
    ExportCompressed { args: Vec<String> },
    /// Move the temporary file to the destination.
    Persist,
    /// Nothing: the pipeline is over.
    Finished,
}

/// An action as plain values.
pub enum ActionView {
    RunTool { args: Seq<Seq<char>>, capture_output: bool },
    ExportCompressed { args: Seq<Seq<char>> },
    Persist,
    Finished,
}

impl View for PackagingAction {
    type V = ActionView;

    open spec fn view(&self) -> ActionView {
        match self {
            PackagingAction::RunTool { args, capture_output } => ActionView::RunTool {
                args: texts(args@),
                capture_output: *capture_output,
            },
            PackagingAction::ExportCompressed { args } => ActionView::ExportCompressed {
                args: texts(args@),
            },
            PackagingAction::Persist => ActionView::Persist,
            PackagingAction::Finished => ActionView::Finished,
        }
    }
}

/// The action of each phase, for the image `name:tag` and the container `id`.
/// Only the creation prints something that is read: the container's id.
pub open spec fn action_of(
    phase: PackagingPhase,
    name: Seq<char>,
    tag: Seq<char>,
    id: Seq<char>,
) -> ActionView {
    let image = name + seq![':'] + tag;
    match phase {
        PackagingPhase::Pulling => ActionView::RunTool {
            args: seq!["pull"@, image],
            capture_output: false,
        },
        PackagingPhase::Creating => ActionView::RunTool {
            args: seq!["create"@, image],
            capture_output: true,
        },
        PackagingPhase::Exporting => ActionView::ExportCompressed { args: seq!["export"@, id] },
        PackagingPhase::Persisting => ActionView::Persist,
        PackagingPhase::Removing { .. } => ActionView::RunTool {
            args: seq!["rm"@, id],
            capture_output: false,
        },
        PackagingPhase::Done { .. } => ActionView::Finished,
    }
}

/// The event that a run with this exit and this output is to `phase`: only
/// the creation has its output read, as UTF-8.
pub open spec fn event_of(phase: PackagingPhase, success: bool, stdout: Seq<u8>) -> ToolEvent {
    if !success {
        ToolEvent::Failed
    } else if phase is Creating && !valid_utf8(stdout) {
        ToolEvent::Unreadable
    } else {
        ToolEvent::Succeeded
    }
}

/// The packaging of one image: which image, the container made from it once
/// there is one, and where the pipeline stands. The caller performs
/// `pending_action` and hands its end to `record`, until `result` is there.
pub struct Packaging {
    pub image_name: String,
    pub image_tag: String,
    pub instance_id: String,
    pub phase: PackagingPhase,
}

impl Packaging {
    /// A pipeline for `image_name:image_tag` that has run nothing yet.
    pub fn new(image_name: String, image_tag: String) -> (p: Self)
        ensures
            p.image_name == image_name,
            p.image_tag == image_tag,
            p.instance_id@ == Seq::<char>::empty(),
            p.phase == PackagingPhase::Pulling,
    {
        Packaging {
            image_name,
            image_tag,
            instance_id: String::new(),
            phase: PackagingPhase::Pulling,
        }
    }

    /// What to do next.
    pub fn pending_action(&self) -> (action: PackagingAction)
        ensures
            action@ == action_of(
                self.phase,
                self.image_name@,
                self.image_tag@,
                self.instance_id@,
            ),
    {
        let name = self.image_name.as_str();
        let tag = self.image_tag.as_str();
        let id = self.instance_id.as_str();
        match self.phase {
            PackagingPhase::Pulling => PackagingAction::RunTool {
                args: image_args("pull", name, tag),
                capture_output: false,
            },
            PackagingPhase::Creating => PackagingAction::RunTool {
                args: image_args("create", name, tag),
                capture_output: true,
            },
            PackagingPhase::Exporting => PackagingAction::ExportCompressed {
                args: container_args("export", id),
            },
            PackagingPhase::Persisting => PackagingAction::Persist,
            PackagingPhase::Removing { .. } => PackagingAction::RunTool {
                args: container_args("rm", id),
                capture_output: false,
            },
            PackagingPhase::Done { .. } => PackagingAction::Finished,
        }
    }

    /// Takes in how the pending action ended: whether it succeeded and, for
    /// a tool that was run to its end, what it printed. The creation's output
    /// names the container.
    pub fn record(&mut self, success: bool, stdout: Vec<u8>)
        ensures
            final(self).phase == pack_step(
                old(self).phase,
                event_of(old(self).phase, success, stdout@),
            ),
            final(self).image_name == old(self).image_name,
            final(self).image_tag == old(self).image_tag,
            final(self).instance_id@ == if old(self).phase is Creating && success && valid_utf8(
                stdout@,
            ) {
                trimmed(decode_utf8(stdout@))
            } else {
                old(self).instance_id@
            },
    {
        let mut event = if success {
            ToolEvent::Succeeded
        } else {
            ToolEvent::Failed
        };
        if success {
            if let PackagingPhase::Creating = self.phase {
                match parse_instance_id(stdout) {
                    Ok(id) => {
                        self.instance_id = id;
                    },
                    Err(_) => {
                        event = ToolEvent::Unreadable;
                    },
                }
            }
        }
        self.phase = pack_advance(self.phase, event);
    }

    /// How the pipeline ended: `None` while work is pending, then `Ok` or
    /// the error of the stage that failed.
    pub fn result(&self) -> (r: Option<Result<(), Error>>)
        ensures
            r == match self.phase {
                PackagingPhase::Done { failure: None, .. } => Some(Ok::<(), Error>(())),
                PackagingPhase::Done { failure: Some(e), .. } => Some(Err::<(), Error>(e)),
                _ => None::<Result<(), Error>>,
            },
    {
        match self.phase {
            PackagingPhase::Done { failure: None, .. } => Some(Ok(())),
            PackagingPhase::Done { failure: Some(e), .. } => Some(Err(e)),
            _ => None,
        }
    }

    /// Whether the pipeline is over and the removal of the container
    /// failed: a warning is due, the result stands.
    pub fn cleanup_failed(&self) -> (warn: bool)
        ensures
            warn == (self.phase matches PackagingPhase::Done { cleanup_failed, .. }
                && cleanup_failed),
    {
        match self.phase {
            PackagingPhase::Done { cleanup_failed, .. } => cleanup_failed,
            _ => false,
        }
    }
}

/// How far a phase is along the way that every pipeline takes.
pub open spec fn pack_rank(phase: PackagingPhase) -> nat {
    match phase {
        PackagingPhase::Pulling => 0,
        PackagingPhase::Creating => 1,
        PackagingPhase::Exporting => 2,
        PackagingPhase::Persisting => 3,
        PackagingPhase::Removing { .. } => 4,
        PackagingPhase::Done { .. } => 5,
    }
}

/// Every event takes an unfinished pipeline further along its way, so that
/// no pipeline asks for more than five pieces of work.
pub proof fn pack_step_advances(phase: PackagingPhase, event: ToolEvent)
    requires
        !(phase is Done),
    ensures
        pack_rank(phase) < pack_rank(pack_step(phase, event)) <= 5,
{
}

/// Phase and container id of a fresh pipeline after `replies` were recorded in
/// turn; a reply is whether the work succeeded and what it printed.
pub open spec fn state_after(replies: Seq<(bool, Vec<u8>)>) -> (PackagingPhase, Seq<char>)
    decreases replies.len(),
{
    if replies.len() == 0 {
        (PackagingPhase::Pulling, Seq::<char>::empty())
    } else {
        let (phase, id) = state_after(replies.drop_last());
        let (success, stdout) = replies.last();
        (
            pack_step(phase, event_of(phase, success, stdout@)),
            if phase is Creating && success && valid_utf8(stdout@) {
                trimmed(decode_utf8(stdout@))
            } else {
                id
            },
        )
    }
}

/// `replies` are what `perform` returned, in turn, for the actions of a
/// pipeline for the image `name:tag`: each reply is one that `perform` may
/// give to the action of the state that the replies before it led to.
pub open spec fn performed<F: Fn(PackagingAction) -> (bool, Vec<u8>)>(
    perform: F,
    name: Seq<char>,
    tag: Seq<char>,
    replies: Seq<(bool, Vec<u8>)>,
) -> bool
    decreases replies.len(),
{
    replies.len() == 0 || {
        let before = replies.drop_last();
        let (phase, id) = state_after(before);
        &&& performed(perform, name, tag, before)
        &&& exists|action: PackagingAction|
            action@ == action_of(phase, name, tag, id) && #[trigger] perform.ensures(
                (action,),
                replies.last(),
            )
    }
}

/// Packages the root file system of the image `distro:tag`, handing each
/// action to `perform` and going by what it replies. The pipeline comes back
/// finished, in the state that those replies make: its result, the id of the
/// container if one was created, and whether its removal failed.
pub fn get_distribution_rootfs_tar_gz<F: Fn(PackagingAction) -> (bool, Vec<u8>)>(
    perform: F,
    distro: &str,
    tag: &str,
) -> (done: Packaging)
    requires
        forall|action: PackagingAction| perform.requires((action,)),
    ensures
        done.phase is Done,
        done.image_name@ == distro@,
        done.image_tag@ == tag@,
        exists|replies: Seq<(bool, Vec<u8>)>|
            #[trigger] performed(perform, distro@, tag@, replies) && state_after(replies) == (
                done.phase,
                done.instance_id@,
            ),
{
    let mut pipeline = Packaging::new(distro.to_owned(), tag.to_owned());
    let ghost mut seen: Seq<(bool, Vec<u8>)> = Seq::empty();
    loop
        invariant
            forall|action: PackagingAction| perform.requires((action,)),
            pipeline.image_name@ == distro@,
            pipeline.image_tag@ == tag@,
            state_after(seen) == (pipeline.phase, pipeline.instance_id@),
            performed(perform, distro@, tag@, seen),
        ensures
            pipeline.phase is Done,
        decreases 5 - pack_rank(pipeline.phase),
    {
        if let PackagingPhase::Done { .. } = pipeline.phase {
            break ;
        }
        let action = pipeline.pending_action();
        let ghost sent = action;
        let (success, stdout) = perform(action);
        proof {
            let reply = (success, stdout);
            let longer = seen.push(reply);
            pack_step_advances(pipeline.phase, event_of(pipeline.phase, success, stdout@));
            assert(longer.drop_last() =~= seen);
            assert(longer.last() == reply);
            assert(perform.ensures((sent,), reply));
            seen = longer;
        }
        pipeline.record(success, stdout);
    }
    pipeline
}

/// How many of `replies` answered a removal of the container: those that were
/// recorded while the pipeline stood at the removal.
pub open spec fn removals_among(replies: Seq<(bool, Vec<u8>)>) -> nat
    decreases replies.len(),
{
    if replies.len() == 0 {
        0
    } else {
        let here: nat = if state_after(replies.drop_last()).0 is Removing {
            1
        } else {
            0
        };
        removals_among(replies.drop_last()) + here
    }
}

/// Whether a pipeline with this result had created a container: it had
/// unless it failed at the pull or at the creation.
pub open spec fn had_container(failure: Option<Error>) -> bool {
    failure is None || failure == Some(Error::ExternalTool { stage: Stage::Export }) || failure
        == Some(Error::ExternalTool { stage: Stage::Persist })
}

/// A finished pipeline that had created a container has removed it exactly
/// once, whether it succeeded or failed afterwards and however many replies
/// came in after its end; one that had created none has removed nothing. An
/// unfinished pipeline has not removed anything yet.
pub proof fn removal_follows_creation(replies: Seq<(bool, Vec<u8>)>)
    ensures
        match state_after(replies).0 {
            PackagingPhase::Done { failure, .. } => removals_among(replies) == if had_container(
                failure,
            ) {
                1nat
            } else {
                0nat
            },
            PackagingPhase::Removing { failure } => removals_among(replies) == 0 && had_container(
                failure,
            ),
            _ => removals_among(replies) == 0,
        },
    decreases replies.len(),
{
    if replies.len() > 0 {
        removal_follows_creation(replies.drop_last());
    }
}

} // verus!
