//! One run of the whole pipeline as a state machine: every result of outside
//! work is handed in as an event, and the run answers with the next action.

use vstd::prelude::*;
use crate::assets::{AssetPaths, RobotRecord, assemble_record, clean_base64, copy_record, is_clean_image, random_id, record_of};
use crate::job::{JobKind, StageResult};
use crate::poll::PollError;
use crate::stats::RobotStatus;

verus! {

/// The stages of a run, in the order in which they are passed.
#[derive(Clone, Copy, Debug, PartialEq, Eq, Structural)]
pub enum Stage {
    StatGeneration,
    ConceptImageGeneration,
    MeshGeneration,
    Rigging,
    Animation,
    AssetDownload,
    RecordAssembly,
}

/// The action selector of the idle animation.
pub const IDLE_ACTION: u32 = 0;

/// The action selector of the attack animation.
pub const ATTACK_ACTION: u32 = 92;

/// Why a run was given up.
#[derive(Debug, PartialEq, Eq)]
pub enum Cause {
    /// A job ended without a result.
    Poll(PollError),
    /// Outside work failed; the text is its own account of it.
    Reported(String),
    /// An event arrived that the run was not waiting for.
    Unexpected,
}

/// A run that was given up, and the stage at which it happened.
#[derive(Debug, PartialEq, Eq)]
pub struct PipelineError {
    pub stage: Stage,
    pub cause: Cause,
}

/// What has come back from outside work.
#[derive(Debug, PartialEq, Eq)]
pub enum Event {
    /// The statistics of the robot.
    Stats(RobotStatus),
    /// The concept image, as base64.
    ConceptImage(String),
    /// A mesh or rigging job was created under this handle.
    JobCreated(String),
    /// The polling loop of the mesh or rigging job has ended.
    PollEnded(Result<StageResult, PollError>),
    /// The two images were stored at these paths.
    ImagesStored { original_image: String, image: String },
    /// The two animation jobs were created under these handles.
    AnimationJobsCreated { idle: String, attack: String },
    /// Both animation polling loops have ended.
    AnimationsEnded { idle: Result<StageResult, PollError>, attack: Result<StageResult, PollError> },
    /// The two animated models were stored at these paths, at this time in
    /// seconds, this many milliseconds after the run began.
    ModelsStored { model: String, attack_model: String, created_at: i64, generation_time_ms: i64 },
    /// The record was handed to the repository.
    RecordStored,
    /// The outside work failed.
    Failed(String),
}

/// What the driver of a run does next.
#[derive(Debug, PartialEq, Eq)]
pub enum Action {
    GenerateStats { image: String },
    GenerateConceptImage { prompt: String },
    CreateMeshJob { image: String },
    /// Poll the job until its loop ends.
    Poll { kind: JobKind, handle: String },
    /// Store the two images, given as base64, under names made from the mesh job.
    StoreImages { mesh_job: String, original: String, concept: String },
    CreateRigJob { mesh_job: String },
    CreateAnimationJobs { rig_job: String, idle_action: u32, attack_action: u32 },
    /// Poll both animation jobs side by side and wait for both loops to end.
    PollAnimations { idle: String, attack: String },
    /// Download the two animated models and store them under names made from
    /// the mesh job.
    StoreModels { mesh_job: String, idle_url: String, attack_url: String },
    StoreRecord(RobotRecord),
    /// The run is over; this is its result.
    Finish(RobotRecord),
    /// The run is over; nothing more is to be done.
    Abort(PipelineError),
}

/// What a run is waiting for, with what it has gathered and still needs.
#[derive(Debug, PartialEq, Eq)]
pub enum Phase {
    AwaitingStats { image: String },
    AwaitingConceptImage { image: String, stats: RobotStatus },
    AwaitingMeshJob { image: String, stats: RobotStatus, concept: String },
    AwaitingMesh { image: String, stats: RobotStatus, concept: String, mesh_job: String },
    AwaitingImages { stats: RobotStatus, mesh_job: String },
    AwaitingRigJob { stats: RobotStatus, mesh_job: String, original_image: String, image: String },
    AwaitingRig { stats: RobotStatus, mesh_job: String, original_image: String, image: String, rig_job: String },
    AwaitingAnimationJobs { stats: RobotStatus, mesh_job: String, original_image: String, image: String },
    AwaitingAnimations { stats: RobotStatus, mesh_job: String, original_image: String, image: String },
    AwaitingModels { stats: RobotStatus, original_image: String, image: String },
    AwaitingStore { record: RobotRecord },
    Finished,
    Aborted,
}

impl Phase {
    /// The stage that a phase belongs to. A run that is over stays at the last
    /// stage.
    pub open spec fn stage(self) -> Stage {
        match self {
            Phase::AwaitingStats { .. } => Stage::StatGeneration,
            Phase::AwaitingConceptImage { .. } => Stage::ConceptImageGeneration,
            Phase::AwaitingMeshJob { .. } => Stage::MeshGeneration,
            Phase::AwaitingMesh { .. } => Stage::MeshGeneration,
            Phase::AwaitingImages { .. } => Stage::MeshGeneration,
            Phase::AwaitingRigJob { .. } => Stage::Rigging,
            Phase::AwaitingRig { .. } => Stage::Rigging,
            Phase::AwaitingAnimationJobs { .. } => Stage::Animation,
            Phase::AwaitingAnimations { .. } => Stage::Animation,
            Phase::AwaitingModels { .. } => Stage::AssetDownload,
            _ => Stage::RecordAssembly,
        }
    }

    /// Whether the run is over.
    pub open spec fn is_over(self) -> bool {
        self is Finished || self is Aborted
    }
}

/// One run of the pipeline: the identifier of the record it will make, and
/// the phase it is in.
#[derive(Debug, PartialEq, Eq)]
pub struct PipelineRun {
    pub id: String,
    pub phase: Phase,
}

/// A run and the action that its driver takes next.
#[derive(Debug, PartialEq, Eq)]
pub struct Step {
    pub run: PipelineRun,
    pub action: Action,
}

impl PipelineRun {
    /// The run given up for `cause`, at the stage it was in.
    pub open spec fn aborted(self, cause: Cause) -> Step {
        Step {
            run: PipelineRun { id: self.id, phase: Phase::Aborted },
            action: Action::Abort(PipelineError { stage: self.phase.stage(), cause }),
        }
    }

    /// The run in its next phase, with the action that leads on.
    pub open spec fn onward(self, phase: Phase, action: Action) -> Step {
        Step { run: PipelineRun { id: self.id, phase }, action }
    }

    /// The step that the two ended animation loops lead to: the failure of the
    /// idle job, else that of the attack job, else the download of both models.
    /// There is no step that keeps one animation without the other.
    pub open spec fn joined(
        self,
        idle: Result<StageResult, PollError>,
        attack: Result<StageResult, PollError>,
    ) -> Step {
        match (self.phase, idle, attack) {
            (_, Err(e), _) => self.aborted(Cause::Poll(e)),
            (_, Ok(_), Err(e)) => self.aborted(Cause::Poll(e)),
            (
                Phase::AwaitingAnimations { stats, mesh_job, original_image, image },
                Ok(StageResult::Url(idle_url)),
                Ok(StageResult::Url(attack_url)),
            ) => self.onward(
                Phase::AwaitingModels { stats, original_image, image },
                Action::StoreModels { mesh_job, idle_url, attack_url },
            ),
            _ => self.aborted(Cause::Unexpected),
        }
    }

    /// The step that an event leads to. Each phase goes on with exactly one
    /// kind of event; a reported failure, a job that ended without a result
    /// and an event that the phase does not wait for give the run up. A run
    /// that is over answers every event by giving up.
    pub open spec fn next(self, event: Event) -> Step {
        match (self.phase, event) {
            (Phase::Finished, _) => self.aborted(Cause::Unexpected),
            (Phase::Aborted, _) => self.aborted(Cause::Unexpected),
            (_, Event::Failed(message)) => self.aborted(Cause::Reported(message)),
            (Phase::AwaitingStats { image }, Event::Stats(stats)) => self.onward(
                Phase::AwaitingConceptImage { image, stats },
                Action::GenerateConceptImage { prompt: stats.visual_description },
            ),
            (Phase::AwaitingConceptImage { image, stats }, Event::ConceptImage(concept)) => self.onward(
                Phase::AwaitingMeshJob { image, stats, concept },
                Action::CreateMeshJob { image: concept },
            ),
            (Phase::AwaitingMeshJob { image, stats, concept }, Event::JobCreated(mesh_job)) => self.onward(
                Phase::AwaitingMesh { image, stats, concept, mesh_job },
                Action::Poll { kind: JobKind::Mesh, handle: mesh_job },
            ),
            (Phase::AwaitingMesh { .. }, Event::PollEnded(Err(e))) => self.aborted(Cause::Poll(e)),
            (Phase::AwaitingMesh { image, stats, concept, mesh_job }, Event::PollEnded(Ok(_))) => self.onward(
                Phase::AwaitingImages { stats, mesh_job },
                Action::StoreImages { mesh_job, original: image, concept },
            ),
            (Phase::AwaitingImages { stats, mesh_job }, Event::ImagesStored { original_image, image }) => self.onward(
                Phase::AwaitingRigJob { stats, mesh_job, original_image, image },
                Action::CreateRigJob { mesh_job },
            ),
            (
                Phase::AwaitingRigJob { stats, mesh_job, original_image, image },
                Event::JobCreated(rig_job),
            ) => self.onward(
                Phase::AwaitingRig { stats, mesh_job, original_image, image, rig_job },
                Action::Poll { kind: JobKind::Rigging, handle: rig_job },
            ),
            (Phase::AwaitingRig { .. }, Event::PollEnded(Err(e))) => self.aborted(Cause::Poll(e)),
            (
                Phase::AwaitingRig { stats, mesh_job, original_image, image, rig_job },
                Event::PollEnded(Ok(_)),
            ) => self.onward(
                Phase::AwaitingAnimationJobs { stats, mesh_job, original_image, image },
                Action::CreateAnimationJobs { rig_job, idle_action: IDLE_ACTION, attack_action: ATTACK_ACTION },
            ),
            (
                Phase::AwaitingAnimationJobs { stats, mesh_job, original_image, image },
                Event::AnimationJobsCreated { idle, attack },
            ) => self.onward(
                Phase::AwaitingAnimations { stats, mesh_job, original_image, image },
                Action::PollAnimations { idle, attack },
            ),
            (Phase::AwaitingAnimations { .. }, Event::AnimationsEnded { idle, attack }) => self.joined(
                idle,
                attack,
            ),
            (
                Phase::AwaitingModels { stats, original_image, image },
                Event::ModelsStored { model, attack_model, created_at, generation_time_ms },
            ) => {
                let record = record_of(
                    self.id,
                    stats,
                    AssetPaths { original_image, image, model, attack_model },
                    created_at,
                    generation_time_ms,
                );
                self.onward(Phase::AwaitingStore { record }, Action::StoreRecord(record))
            },
            (Phase::AwaitingStore { record }, Event::RecordStored) => self.onward(
                Phase::Finished,
                Action::Finish(record),
            ),
            _ => self.aborted(Cause::Unexpected),
        }
    }
}

impl Phase {
    /// The stage that the phase belongs to.
    pub fn current_stage(&self) -> (stage: Stage)
        ensures
            stage == self.stage(),
    {
        match self {
            Phase::AwaitingStats { .. } => Stage::StatGeneration,
            Phase::AwaitingConceptImage { .. } => Stage::ConceptImageGeneration,
            Phase::AwaitingMeshJob { .. } => Stage::MeshGeneration,
            Phase::AwaitingMesh { .. } => Stage::MeshGeneration,
            Phase::AwaitingImages { .. } => Stage::MeshGeneration,
            Phase::AwaitingRigJob { .. } => Stage::Rigging,
            Phase::AwaitingRig { .. } => Stage::Rigging,
            Phase::AwaitingAnimationJobs { .. } => Stage::Animation,
            Phase::AwaitingAnimations { .. } => Stage::Animation,
            Phase::AwaitingModels { .. } => Stage::AssetDownload,
            _ => Stage::RecordAssembly,
        }
    }

    /// Whether the run is over.
    pub fn over(&self) -> (b: bool)
        ensures
            b == self.is_over(),
    {
        match self {
            Phase::Finished => true,
            Phase::Aborted => true,
            _ => false,
        }
    }
}

fn give_up(id: String, stage: Stage, cause: Cause) -> (step: Step)
    ensures
        step == (Step {
            run: PipelineRun { id, phase: Phase::Aborted },
            action: Action::Abort(PipelineError { stage, cause }),
        }),
{
    Step { run: PipelineRun { id, phase: Phase::Aborted }, action: Action::Abort(PipelineError { stage, cause }) }
}

fn go_on(id: String, phase: Phase, action: Action) -> (step: Step)
    ensures
        step == (Step { run: PipelineRun { id, phase }, action }),
{
    Step { run: PipelineRun { id, phase }, action }
}

impl PipelineRun {
    /// Starts a run on an input image, given as base64 with or without a
    /// data-URI prefix, under the identifier that its record will bear. The
    /// image is kept without the prefix, and the first action sends it to the
    /// text service.
    pub fn begin_with_id(id: String, image: &str) -> (step: Step)
        ensures
            step.run.id == id,
            step.run.phase is AwaitingStats,
            is_clean_image(image@, step.run.phase->AwaitingStats_image@),
            step.action == (Action::GenerateStats { image: step.run.phase->AwaitingStats_image }),
    {
        let kept = clean_base64(image);
        let sent = kept.clone();
        go_on(id, Phase::AwaitingStats { image: kept }, Action::GenerateStats { image: sent })
    }

    /// Starts a run on an input image under a fresh random identifier.
    pub fn begin(image: &str) -> (step: Step)
        ensures
            step.run.id@.len() == 36,
            step.run.phase is AwaitingStats,
            is_clean_image(image@, step.run.phase->AwaitingStats_image@),
            step.action == (Action::GenerateStats { image: step.run.phase->AwaitingStats_image }),
    {
        PipelineRun::begin_with_id(random_id(), image)
    }

    /// Takes what came back from outside work and says what to do next.
    pub fn advance(self, event: Event) -> (step: Step)
        ensures
            step == self.next(event),
    {
        let stage = self.phase.current_stage();
        let PipelineRun { id, phase } = self;
        match (phase, event) {
            (Phase::Finished, _) => give_up(id, stage, Cause::Unexpected),
            (Phase::Aborted, _) => give_up(id, stage, Cause::Unexpected),
            (_, Event::Failed(message)) => give_up(id, stage, Cause::Reported(message)),
            (Phase::AwaitingStats { image }, Event::Stats(stats)) => {
                let prompt = stats.visual_description.clone();
                go_on(id, Phase::AwaitingConceptImage { image, stats }, Action::GenerateConceptImage { prompt })
            },
            (Phase::AwaitingConceptImage { image, stats }, Event::ConceptImage(concept)) => {
                let sent = concept.clone();
                go_on(id, Phase::AwaitingMeshJob { image, stats, concept }, Action::CreateMeshJob { image: sent })
            },
            (Phase::AwaitingMeshJob { image, stats, concept }, Event::JobCreated(mesh_job)) => {
                let handle = mesh_job.clone();
                go_on(
                    id,
                    Phase::AwaitingMesh { image, stats, concept, mesh_job },
                    Action::Poll { kind: JobKind::Mesh, handle },
                )
            },
            (Phase::AwaitingMesh { .. }, Event::PollEnded(Err(e))) => give_up(id, stage, Cause::Poll(e)),
            (Phase::AwaitingMesh { image, stats, concept, mesh_job }, Event::PollEnded(Ok(_))) => {
                let job = mesh_job.clone();
                go_on(
                    id,
                    Phase::AwaitingImages { stats, mesh_job },
                    Action::StoreImages { mesh_job: job, original: image, concept },
                )
            },
            (Phase::AwaitingImages { stats, mesh_job }, Event::ImagesStored { original_image, image }) => {
                let job = mesh_job.clone();
                go_on(
                    id,
                    Phase::AwaitingRigJob { stats, mesh_job, original_image, image },
                    Action::CreateRigJob { mesh_job: job },
                )
            },
            (Phase::AwaitingRigJob { stats, mesh_job, original_image, image }, Event::JobCreated(rig_job)) => {
                let handle = rig_job.clone();
                go_on(
                    id,
                    Phase::AwaitingRig { stats, mesh_job, original_image, image, rig_job },
                    Action::Poll { kind: JobKind::Rigging, handle },
                )
            },
            (Phase::AwaitingRig { .. }, Event::PollEnded(Err(e))) => give_up(id, stage, Cause::Poll(e)),
            (
                Phase::AwaitingRig { stats, mesh_job, original_image, image, rig_job },
                Event::PollEnded(Ok(_)),
            ) => go_on(
                id,
                Phase::AwaitingAnimationJobs { stats, mesh_job, original_image, image },
                Action::CreateAnimationJobs { rig_job, idle_action: IDLE_ACTION, attack_action: ATTACK_ACTION },
            ),
            (
                Phase::AwaitingAnimationJobs { stats, mesh_job, original_image, image },
                Event::AnimationJobsCreated { idle, attack },
            ) => go_on(
                id,
                Phase::AwaitingAnimations { stats, mesh_job, original_image, image },
                Action::PollAnimations { idle, attack },
            ),
            (
                Phase::AwaitingAnimations { stats, mesh_job, original_image, image },
                Event::AnimationsEnded { idle, attack },
            ) => match (idle, attack) {
                (Err(e), _) => give_up(id, stage, Cause::Poll(e)),
                (Ok(_), Err(e)) => give_up(id, stage, Cause::Poll(e)),
                (Ok(StageResult::Url(idle_url)), Ok(StageResult::Url(attack_url))) => go_on(
                    id,
                    Phase::AwaitingModels { stats, original_image, image },
                    Action::StoreModels { mesh_job, idle_url, attack_url },
                ),
                _ => give_up(id, stage, Cause::Unexpected),
            },
            (
                Phase::AwaitingModels { stats, original_image, image },
                Event::ModelsStored { model, attack_model, created_at, generation_time_ms },
            ) => {
                let record = assemble_record(
                    id.clone(),
                    stats,
                    AssetPaths { original_image, image, model, attack_model },
                    created_at,
                    generation_time_ms,
                );
                let stored = copy_record(&record);
                go_on(id, Phase::AwaitingStore { record }, Action::StoreRecord(stored))
            },
            (Phase::AwaitingStore { record }, Event::RecordStored) => go_on(
                id,
                Phase::Finished,
                Action::Finish(record),
            ),
            _ => give_up(id, stage, Cause::Unexpected),
        }
    }
}


/// After both animation loops have ended, the run goes on only where both
/// gave a model: where either has failed the run is given up with that
/// failure, and no model is downloaded.
pub proof fn law_either_animation_failure_gives_up(
    run: PipelineRun,
    idle: Result<StageResult, PollError>,
    attack: Result<StageResult, PollError>,
)
    requires
        run.phase is AwaitingAnimations,
        idle is Err || attack is Err,
    ensures
        run.next(Event::AnimationsEnded { idle, attack }).run.phase is Aborted,
        run.next(Event::AnimationsEnded { idle, attack }).action is Abort,
        run.next(Event::AnimationsEnded { idle, attack }).action->Abort_0.stage == Stage::Animation,
        run.next(Event::AnimationsEnded { idle, attack }).action->Abort_0.cause == Cause::Poll(
            if idle is Err {
                idle->Err_0
            } else {
                attack->Err_0
            },
        ),
{
}

/// A record is handed to the repository at one point only: when both models
/// have been stored. It is the record of the statistics and paths gathered,
/// under the run's identifier.
pub proof fn law_record_stored_only_at_the_end(run: PipelineRun, event: Event)
    requires
        run.next(event).action is StoreRecord,
    ensures
        run.phase is AwaitingModels,
        event is ModelsStored,
        run.next(event).action->StoreRecord_0.id == run.id,
{
}

/// A job that ends without a result gives the run up with that very failure,
/// at the stage of the job.
pub proof fn law_job_failure_gives_up(run: PipelineRun, failure: PollError)
    requires
        run.phase is AwaitingMesh || run.phase is AwaitingRig,
    ensures
        run.next(Event::PollEnded(Err(failure))) == run.aborted(Cause::Poll(failure)),
        run.next(Event::PollEnded(Err(failure))).action == Action::Abort(
            PipelineError { stage: run.phase.stage(), cause: Cause::Poll(failure) },
        ),
{
}

/// A run that is over stays over: it answers every event by giving up, and
/// never acts again.
pub proof fn law_over_stays_over(run: PipelineRun, event: Event)
    requires
        run.phase.is_over(),
    ensures
        run.next(event).run.phase is Aborted,
        run.next(event).action is Abort,
{
}

/// A run that is given up leaves nothing to do: after an abort no event leads
/// to any action but another abort.
pub proof fn law_nothing_follows_an_abort(run: PipelineRun, event: Event, later: Event)
    requires
        run.next(event).action is Abort,
    ensures
        run.next(event).run.next(later).action is Abort,
{
}

} // verus!
