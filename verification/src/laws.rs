//! What holds of every run, whatever the caller answers.

use crate::client::{
    law_complete_tells_every_part, law_endpoint_addresses, CdnToken, FalClient, FileLabel, LocalFile,
    Multipart, ENDPOINT,
};
use crate::flow::{answers, Action, Event, InputInfo, StoryboardOutput};
use crate::http::{decoded, success, Body, Method, Status};
use crate::input::{prompt_with, url_like, Cli};
use crate::json::{parsed, Json};
use crate::parts::{part_count_of, MULTIPART_THRESHOLD};
use crate::session::{
    file_input, law_output_members, law_queue_decides, law_request_members, law_time_limit,
    law_verdicts, nap, output_of, overdue, request_contents, started, url_input, verdict_of, Job,
    Session, SessionModel, Stage, StageModel, Verdict, PROVIDER,
};
use crate::text::{decimal, slash, trimmed_end};
use crate::upload::{
    law_upload_asks, Progress, ProgressModel, Upload, UploadModel, UploadStage, UploadStageModel,
};
use vstd::prelude::*;

verus! {

/// A run after these answers, one after the other.
pub open spec fn after(run: SessionModel, events: Seq<Event<Seq<char>>>) -> SessionModel
    decreases events.len(),
{
    if events.len() == 0 {
        run
    } else {
        after(run, events.drop_last()).next(events.last())
    }
}

/// Where the video comes from, once a run knows it.
pub open spec fn input_of(stage: StageModel) -> Option<InputInfo<Seq<char>>> {
    match stage {
        Stage::Uploading(_) | Stage::Failed(_) => None,
        Stage::Announcing(input) | Stage::Submitting(input) => Some(input),
        Stage::Queuing { input, .. } => Some(input),
        Stage::Reporting(job)
        | Stage::Starting(job)
        | Stage::Polling(job)
        | Stage::Timing(job)
        | Stage::Sleeping(job)
        | Stage::Fetching(job) => Some(job.input),
        Stage::Finished(output) => Some(output.input),
    }
}

/// The queue's name for the request, once a run knows it.
pub open spec fn request_of(stage: StageModel) -> Option<Seq<char>> {
    match stage {
        Stage::Reporting(job)
        | Stage::Starting(job)
        | Stage::Polling(job)
        | Stage::Timing(job)
        | Stage::Sleeping(job)
        | Stage::Fetching(job) => Some(job.request_id),
        Stage::Finished(output) => Some(output.request_id),
        _ => None,
    }
}

/// Whether an action touches the file.
pub open spec fn touches_file(action: Action<Seq<char>, Json>) -> bool {
    match action {
        Action::Load(_) | Action::Measure(_) | Action::Open(_) => true,
        Action::Send(request) | Action::Deliver(request) => request.body is File
            || request.body is Part,
        _ => false,
    }
}

/// Anything but an answer to the pending action changes nothing; in
/// particular nothing changes a run that is over.
pub proof fn law_only_answers_count(run: SessionModel, event: Event<Seq<char>>)
    requires
        !answers(run.pending_action(), event),
    ensures
        run.next(event) == run,
{
}

/// Every answer to the pending action takes a run to another stage.
pub proof fn law_every_answer_counts(run: SessionModel, event: Event<Seq<char>>)
    requires
        run.wf(),
        answers(run.pending_action(), event),
    ensures
        run.next(event).stage != run.stage,
{
    if run.stage is Uploading {
        law_upload_ends(run.stage->Uploading_0, run.client, event);
    }
}

/// Answers can be taken together: a run after some answers and then after
/// others is the run after all of them.
pub proof fn law_answers_add_up(
    run: SessionModel,
    events: Seq<Event<Seq<char>>>,
    more: Seq<Event<Seq<char>>>,
)
    ensures
        after(run, events + more) == after(after(run, events), more),
    decreases more.len(),
{
    if more.len() == 0 {
        assert(events + more =~= events);
    } else {
        assert((events + more).drop_last() =~= events + more.drop_last());
        law_answers_add_up(run, events, more.drop_last());
    }
}

/// A look at the queue: its answer, and the seconds and nanoseconds that the
/// clock shows then.
pub struct Look {
    /// The answer of the queue.
    pub reply: Event<Seq<char>>,
    /// Whole seconds since the clock was started.
    pub secs: u64,
    /// Nanoseconds beyond them.
    pub nanos: u32,
}

impl Look {
    /// Whether the queue has not decided yet and the time is not up.
    pub open spec fn undecided(self, max_wait_secs: u64) -> bool {
        &&& good_reply(self.reply) matches Some(contents)
        &&& verdict_of(contents) == Verdict::Waiting
        &&& !overdue(self.secs, self.nanos, max_wait_secs)
    }
}

/// The answers of rounds of waiting: for each look the queue's answer, the
/// clock and the end of a sleep.
pub open spec fn rounds(looks: Seq<Look>) -> Seq<Event<Seq<char>>>
    decreases looks.len(),
{
    if looks.len() == 0 {
        Seq::empty()
    } else {
        let look = looks.last();
        rounds(looks.drop_last()) + seq![
            look.reply,
            Event::Elapsed { secs: look.secs, nanos: look.nanos },
            Event::Done,
        ]
    }
}

/// However often a run looks at a queue that has not decided yet, as long as
/// the time is not up it ends where it began: about to look again, for the
/// same request.
pub proof fn law_undecided_looks_change_nothing(run: SessionModel, looks: Seq<Look>)
    requires
        run.stage is Polling,
    ensures
        (forall|i: int|
            0 <= i < looks.len() ==> #[trigger] looks[i].undecided(run.cli.max_wait_secs)) ==> after(
            run,
            rounds(looks),
        ) == run,
    decreases looks.len(),
{
    if looks.len() > 0 && (forall|i: int|
        0 <= i < looks.len() ==> #[trigger] looks[i].undecided(run.cli.max_wait_secs)) {
        let fewer = looks.drop_last();
        assert forall|i: int| 0 <= i < fewer.len() implies #[trigger] fewer[i].undecided(
            run.cli.max_wait_secs,
        ) by {
            assert(fewer[i] == looks[i]);
        }
        law_undecided_looks_change_nothing(run, fewer);
        let look = looks.last();
        assert(looks[looks.len() - 1].undecided(run.cli.max_wait_secs));
        let round = seq![
            look.reply,
            Event::Elapsed { secs: look.secs, nanos: look.nanos },
            Event::Done,
        ];
        law_answers_add_up(run, rounds(fewer), round);
        assert(round.take(3) =~= round);
        assert(round.take(3).drop_last() =~= round.take(2));
        assert(round.take(2).drop_last() =~= round.take(1));
        assert(round.take(1).drop_last() =~= round.take(0));
        reveal_with_fuel(after, 4);
    }
}

/// A run in which the service does what it is asked: the request is put into
/// the queue under the name `request_id`, the queue says that it is done,
/// after any number of looks at which it had not decided yet and the time was
/// not up, and the result holds a storyboard. From a known address of the
/// video the run comes to that storyboard.
pub proof fn law_good_replies_give_the_storyboard(
    run: SessionModel,
    input: InputInfo<Seq<char>>,
    submitted: Event<Seq<char>>,
    request_id: Seq<char>,
    looks: Seq<Look>,
    polled: Event<Seq<char>>,
    fetched: Event<Seq<char>>,
)
    requires
        run.stage == StageModel::Announcing(input),
    ensures
        ({
            let opening = seq![
                Event::Done,
                submitted,
                Event::Queued(request_id),
                Event::Done,
                Event::Done,
            ];
            let last = after(run, opening + rounds(looks) + seq![polled, fetched]);
            let job = Job { input, request_id };
            good_reply(submitted) is Some && (forall|i: int|
                0 <= i < looks.len() ==> #[trigger] looks[i].undecided(run.cli.max_wait_secs))
                && good_reply(polled) is Some && verdict_of(good_reply(polled)->0)
                == Verdict::Completed && good_reply(fetched) is Some && output_of(
                run.cli,
                job,
                good_reply(fetched)->0,
            ) is Ok ==> last.stage == StageModel::Finished(
                output_of(run.cli, job, good_reply(fetched)->0)->Ok_0,
            )
        }),
{
    let opening = seq![
        Event::Done,
        submitted,
        Event::Queued(request_id),
        Event::Done,
        Event::Done,
    ];
    let job = Job { input, request_id };
    if good_reply(submitted) is Some {
        let polling = after(run, opening);
        assert(polling.stage == StageModel::Polling(job)) by {
            assert(opening.take(5) =~= opening);
            assert(opening.take(5).drop_last() =~= opening.take(4));
            assert(opening.take(4).drop_last() =~= opening.take(3));
            assert(opening.take(3).drop_last() =~= opening.take(2));
            assert(opening.take(2).drop_last() =~= opening.take(1));
            assert(opening.take(1).drop_last() =~= opening.take(0));
            reveal_with_fuel(after, 6);
        }
        law_setting_is_kept(run, opening);
        law_undecided_looks_change_nothing(polling, looks);
        law_answers_add_up(run, opening, rounds(looks));
        let end = seq![polled, fetched];
        law_answers_add_up(run, opening + rounds(looks), end);
        assert(end.take(2) =~= end);
        assert(end.take(2).drop_last() =~= end.take(1));
        assert(end.take(1).drop_last() =~= end.take(0));
        reveal_with_fuel(after, 3);
    }
}

/// The contents of a reply that came with a status of success.
pub open spec fn good_reply(event: Event<Seq<char>>) -> Option<Json> {
    match event {
        Event::Reply { status, text } => match decoded(status@, text) {
            Ok(contents) => Some(contents),
            Err(_) => None,
        },
        _ => None,
    }
}

/// A file that is small enough to go in one piece and whose first upload goes
/// well is found under the address that the service gave it.
pub proof fn law_small_file_goes_in_one_piece(
    client: FalClient<Seq<char>>,
    cli: Cli<Seq<char>, Json>,
    label: FileLabel<Seq<char>>,
    permitted: Event<Seq<char>>,
    token: CdnToken<Seq<char>>,
    size: u64,
    sent: Event<Seq<char>>,
)
    requires
        !url_like(cli.input),
        size <= MULTIPART_THRESHOLD,
    ensures
        ({
            let last = after(
                started(client, cli, label),
                seq![
                    Event::Done,
                    Event::Done,
                    permitted,
                    Event::Token(token),
                    Event::Size(size),
                    sent,
                ],
            );
            good_reply(permitted) is Some && good_reply(sent) is Some && good_reply(
                sent,
            )->0.text_member("access_url"@) is Some ==> last.stage == StageModel::Announcing(
                file_input(cli.input, good_reply(sent)->0.text_member("access_url"@)->0),
            )
        }),
{
    let events = seq![
        Event::Done,
        Event::Done,
        permitted,
        Event::Token(token),
        Event::Size(size),
        sent,
    ];
    assert(events.take(6) =~= events);
    assert(events.take(6).drop_last() =~= events.take(5));
    assert(events.take(5).drop_last() =~= events.take(4));
    assert(events.take(4).drop_last() =~= events.take(3));
    assert(events.take(3).drop_last() =~= events.take(2));
    assert(events.take(2).drop_last() =~= events.take(1));
    assert(events.take(1).drop_last() =~= events.take(0));
    reveal_with_fuel(after, 7);
}

/// The service and the options of a run stay the same.
pub proof fn law_setting_is_kept(run: SessionModel, events: Seq<Event<Seq<char>>>)
    ensures
        after(run, events).client == run.client,
        after(run, events).cli == run.cli,
    decreases events.len(),
{
    if events.len() > 0 {
        law_setting_is_kept(run, events.drop_last());
    }
}

/// A run stays in order.
pub proof fn law_order_is_kept(run: SessionModel, events: Seq<Event<Seq<char>>>)
    requires
        run.wf(),
    ensures
        after(run, events).wf(),
    decreases events.len(),
{
    if events.len() > 0 {
        law_order_is_kept(run, events.drop_last());
    }
}

/// A web address is passed on as it is: nothing is uploaded and no file is
/// touched.
pub proof fn law_web_address_is_passed_on(
    client: FalClient<Seq<char>>,
    cli: Cli<Seq<char>, Json>,
    label: FileLabel<Seq<char>>,
    events: Seq<Event<Seq<char>>>,
)
    requires
        url_like(cli.input),
    ensures
        !(after(started(client, cli, label), events).stage is Uploading),
        !touches_file(after(started(client, cli, label), events).pending_action()),
        input_of(after(started(client, cli, label), events).stage) matches Some(input) ==> input
            == url_input(cli.input),
    decreases events.len(),
{
    if events.len() > 0 {
        law_web_address_is_passed_on(client, cli, label, events.drop_last());
    }
}

/// A file is uploaded before anything is put into the queue: a run on a file
/// that has left the upload behind and has not failed got the address that it
/// uses from an upload of that file, which ended with one of the answers.
pub proof fn law_file_is_uploaded_first(
    client: FalClient<Seq<char>>,
    cli: Cli<Seq<char>, Json>,
    label: FileLabel<Seq<char>>,
    events: Seq<Event<Seq<char>>>,
)
    requires
        !url_like(cli.input),
    ensures
        ({
            let run = after(started(client, cli, label), events);
            &&& run.stage matches Stage::Uploading(upload) ==> upload.file == (LocalFile {
                path: cli.input,
                label,
            })
            &&& input_of(run.stage) matches Some(input) ==> {
                &&& input == file_input(cli.input, input.resolved_url)
                &&& exists|k: int|
                    0 <= k < events.len() && uploads_at(client, cli, label, events, k, input.resolved_url)
            }
        }),
    decreases events.len(),
{
    if events.len() > 0 {
        let earlier = events.drop_last();
        law_file_is_uploaded_first(client, cli, label, earlier);
        let before = after(started(client, cli, label), earlier);
        let run = after(started(client, cli, label), events);
        law_setting_is_kept(started(client, cli, label), earlier);
        match input_of(run.stage) {
            Some(input) => {
                match input_of(before.stage) {
                    Some(_) => {
                        let k = choose|k: int|
                            0 <= k < earlier.len() && uploads_at(
                                client,
                                cli,
                                label,
                                earlier,
                                k,
                                input.resolved_url,
                            );
                        assert(events.take(k) =~= earlier.take(k));
                        assert(uploads_at(client, cli, label, events, k, input.resolved_url));
                    },
                    None => {
                        assert(events.take(earlier.len() as int) =~= earlier);
                        assert(uploads_at(
                            client,
                            cli,
                            label,
                            events,
                            earlier.len() as int,
                            input.resolved_url,
                        ));
                    },
                }
            },
            None => {},
        }
    }
}

/// The answer number `k` ends the upload of a run's file with this address.
pub open spec fn uploads_at(
    client: FalClient<Seq<char>>,
    cli: Cli<Seq<char>, Json>,
    label: FileLabel<Seq<char>>,
    events: Seq<Event<Seq<char>>>,
    k: int,
    url: Seq<char>,
) -> bool {
    after(started(client, cli, label), events.take(k)).stage matches Stage::Uploading(upload)
        && upload.file == (LocalFile { path: cli.input, label }) && upload.next(events[k])
        == ProgressModel::Uploaded(url)
}

/// The answer number `k` is the queue's word that the request of this job is
/// done.
pub open spec fn completes_at(
    client: FalClient<Seq<char>>,
    cli: Cli<Seq<char>, Json>,
    label: FileLabel<Seq<char>>,
    events: Seq<Event<Seq<char>>>,
    k: int,
    request_id: Seq<char>,
) -> bool {
    &&& after(started(client, cli, label), events.take(k)).stage matches Stage::Polling(job)
    &&& job.request_id == request_id
    &&& events[k] matches Event::Reply { status, text }
    &&& decoded(status@, text) matches Ok(contents)
    &&& verdict_of(contents) == Verdict::Completed
}

/// A result is asked for, and a run finishes, only after the queue has said
/// that the request is done.
pub proof fn law_result_follows_completion(
    client: FalClient<Seq<char>>,
    cli: Cli<Seq<char>, Json>,
    label: FileLabel<Seq<char>>,
    events: Seq<Event<Seq<char>>>,
)
    ensures
        ({
            let stage = after(started(client, cli, label), events).stage;
            stage is Fetching || stage is Finished ==> exists|k: int|
                0 <= k < events.len() && completes_at(
                    client,
                    cli,
                    label,
                    events,
                    k,
                    request_of(stage)->0,
                )
        }),
    decreases events.len(),
{
    if events.len() > 0 {
        let earlier = events.drop_last();
        law_result_follows_completion(client, cli, label, earlier);
        let before = after(started(client, cli, label), earlier);
        let stage = after(started(client, cli, label), events).stage;
        if stage is Fetching || stage is Finished {
            let id = request_of(stage)->0;
            if before.stage is Fetching || before.stage is Finished {
                assert(request_of(before.stage) == Some(id));
                let k = choose|k: int|
                    0 <= k < earlier.len() && completes_at(client, cli, label, earlier, k, id);
                assert(events.take(k) =~= earlier.take(k));
                assert(completes_at(client, cli, label, events, k, id));
            } else {
                assert(events.take(earlier.len() as int) =~= earlier);
                assert(completes_at(client, cli, label, events, earlier.len() as int, id));
            }
        }
    }
}

/// A run asks for the request that the queue named in its answer, and for no
/// other.
pub proof fn law_request_is_the_queued_one(
    client: FalClient<Seq<char>>,
    cli: Cli<Seq<char>, Json>,
    label: FileLabel<Seq<char>>,
    events: Seq<Event<Seq<char>>>,
)
    ensures
        request_of(after(started(client, cli, label), events).stage) matches Some(id) ==> events.contains(
            Event::Queued(id),
        ),
    decreases events.len(),
{
    if events.len() > 0 {
        let earlier = events.drop_last();
        law_request_is_the_queued_one(client, cli, label, earlier);
        let before = after(started(client, cli, label), earlier);
        match request_of(after(started(client, cli, label), events).stage) {
            Some(id) => {
                if request_of(before.stage) is Some {
                    assert(earlier.contains(Event::Queued(id)));
                    let i = choose|i: int| 0 <= i < earlier.len() && earlier[i] == Event::Queued(id);
                    assert(events[i] == Event::Queued(id));
                } else {
                    assert(events[events.len() - 1] == Event::Queued(id));
                }
            },
            None => {},
        }
    }
}

/// What a run comes to names the service, the endpoint, the model that was
/// asked for and the input that the user handed in.
pub proof fn law_output_tells_the_run(
    client: FalClient<Seq<char>>,
    cli: Cli<Seq<char>, Json>,
    label: FileLabel<Seq<char>>,
    events: Seq<Event<Seq<char>>>,
)
    ensures
        after(started(client, cli, label), events).stage matches Stage::Finished(output) ==> {
            &&& output.provider == PROVIDER@
            &&& output.endpoint == ENDPOINT@
            &&& output.model == cli.model
            &&& output.input.source == cli.input
            &&& output.input.kind == if url_like(cli.input) {
                "url"@
            } else {
                "file"@
            }
        },
    decreases events.len(),
{
    if events.len() > 0 {
        law_output_tells_the_run(client, cli, label, events.drop_last());
        law_setting_is_kept(started(client, cli, label), events.drop_last());
        if url_like(cli.input) {
            law_web_address_is_passed_on(client, cli, label, events);
        } else {
            law_file_is_uploaded_first(client, cli, label, events);
        }
    }
}

/// The answer number `k` is the result from which a run made this output.
pub open spec fn fetches_at(
    client: FalClient<Seq<char>>,
    cli: Cli<Seq<char>, Json>,
    label: FileLabel<Seq<char>>,
    events: Seq<Event<Seq<char>>>,
    k: int,
    output: StoryboardOutput<Seq<char>, Json>,
) -> bool {
    &&& after(started(client, cli, label), events.take(k)).stage matches Stage::Fetching(job)
    &&& good_reply(events[k]) matches Some(contents)
    &&& output_of(cli, job, contents) == Ok::<StoryboardOutput<Seq<char>, Json>, Seq<char>>(output)
}

/// The storyboard and the account of what was used up are those of the result
/// that the service sent, as it sent them.
pub proof fn law_output_is_the_result(
    client: FalClient<Seq<char>>,
    cli: Cli<Seq<char>, Json>,
    label: FileLabel<Seq<char>>,
    events: Seq<Event<Seq<char>>>,
)
    ensures
        after(started(client, cli, label), events).stage matches Stage::Finished(output) ==> exists|k: int|
            0 <= k < events.len() && fetches_at(client, cli, label, events, k, output),
    decreases events.len(),
{
    if events.len() > 0 {
        let earlier = events.drop_last();
        law_output_is_the_result(client, cli, label, earlier);
        law_setting_is_kept(started(client, cli, label), earlier);
        let before = after(started(client, cli, label), earlier);
        match after(started(client, cli, label), events).stage {
            Stage::Finished(output) => {
                if before.stage is Finished {
                    let k = choose|k: int|
                        0 <= k < earlier.len() && fetches_at(client, cli, label, earlier, k, output);
                    assert(events.take(k) =~= earlier.take(k));
                    assert(fetches_at(client, cli, label, events, k, output));
                } else {
                    assert(events.take(earlier.len() as int) =~= earlier);
                    assert(fetches_at(client, cli, label, events, earlier.len() as int, output));
                }
            },
            _ => {},
        }
    }
}

/// How far a run is from its end: the number of its phase, counted backwards.
/// The stages of waiting for the queue are one phase.
pub open spec fn phases_left(stage: StageModel) -> nat {
    match stage {
        Stage::Uploading(_) => 8,
        Stage::Announcing(_) => 7,
        Stage::Submitting(_) => 6,
        Stage::Queuing { .. } => 5,
        Stage::Reporting(_) => 4,
        Stage::Starting(_) => 3,
        Stage::Polling(_) | Stage::Timing(_) | Stage::Sleeping(_) => 2,
        Stage::Fetching(_) => 1,
        Stage::Finished(_) | Stage::Failed(_) => 0,
    }
}

/// A run never goes back to an earlier phase. So it leaves the upload behind
/// for good, and it puts one request into the queue: a run that is about to
/// do so and was about to do so before has not moved in between.
pub proof fn law_run_goes_forward(run: SessionModel, events: Seq<Event<Seq<char>>>)
    ensures
        phases_left(after(run, events).stage) <= phases_left(run.stage),
        run.stage is Submitting && after(run, events).stage is Submitting ==> after(run, events)
            == run,
    decreases events.len(),
{
    if events.len() > 0 {
        law_run_goes_forward(run, events.drop_last());
        let before = after(run, events.drop_last());
        assert(phases_left(before.next(events.last()).stage) <= phases_left(before.stage));
    }
}

/// Where the queue has not decided yet and the time is not up, a run sleeps
/// for at least a second and asks again for the same request; where the time
/// is up, it fails and names the request.
pub proof fn law_waiting(run: SessionModel, reply: Json, secs: u64, nanos: u32)
    requires
        run.stage is Polling,
        verdict_of(reply) == Verdict::Waiting,
    ensures
        ({
            let job = run.stage->Polling_0;
            let timing = Session { stage: run.after_reply(Ok(reply)), ..run };
            let timed = timing.next(Event::Elapsed { secs, nanos });
            &&& timing.pending_action() == Action::<Seq<char>, Json>::ReadClock
            &&& !overdue(secs, nanos, run.cli.max_wait_secs) ==> {
                &&& timed.pending_action() == Action::<Seq<char>, Json>::Sleep(
                    nap(run.cli.poll_interval_secs),
                )
                &&& nap(run.cli.poll_interval_secs) >= 1
                &&& timed.next(Event::Done) == run
            }
            &&& overdue(secs, nanos, run.cli.max_wait_secs) ==> timed.pending_action()
                == Action::<Seq<char>, Json>::Fail("timeout waiting for "@ + job.request_id)
        }),
{
}

/// How far an upload is from its end: the number of its stage, counted
/// backwards.
pub open spec fn stages_left(stage: UploadStageModel) -> nat {
    match stage {
        UploadStage::Announce => 13,
        UploadStage::Load => 12,
        UploadStage::Token => 11,
        UploadStage::TokenReply(_) => 10,
        UploadStage::Measure(_) => 9,
        UploadStage::Single(_) => 8,
        UploadStage::Create(_) => 8,
        UploadStage::MeasureParts(_) => 7,
        UploadStage::Open { .. } => 6,
        UploadStage::Part { .. } => 5,
        UploadStage::Complete { .. } => 4,
        UploadStage::Cdn { .. } => 3,
        UploadStage::Storage { .. } => 2,
        UploadStage::StoragePut { .. } => 1,
    }
}

/// How many parts have no tag yet.
pub open spec fn parts_left(stage: UploadStageModel) -> int {
    match stage {
        UploadStage::Part { size, etags, .. } => part_count_of(size) - etags.len(),
        _ => 0,
    }
}

/// An upload does not go on for ever: every answer to its pending action ends
/// it, or takes it to a later stage, or leaves it with fewer parts to send.
pub proof fn law_upload_ends(
    upload: UploadModel,
    client: FalClient<Seq<char>>,
    event: Event<Seq<char>>,
)
    requires
        upload.wf(),
        answers(upload.pending_action(client), event),
    ensures
        upload.next(event) matches Progress::Going(next) ==> {
            ||| stages_left(next.stage) < stages_left(upload.stage)
            ||| {
                &&& stages_left(next.stage) == stages_left(upload.stage)
                &&& 0 < parts_left(next.stage) < parts_left(upload.stage)
            }
        },
{
}

/// An upload after these answers, one after the other.
pub open spec fn upload_after(file: LocalFile<Seq<char>>, events: Seq<Event<Seq<char>>>) -> ProgressModel
    decreases events.len(),
{
    if events.len() == 0 {
        Progress::Going(Upload { file, stage: UploadStage::Announce })
    } else {
        match upload_after(file, events.drop_last()) {
            Progress::Going(upload) => upload.next(events.last()),
            ended => ended,
        }
    }
}

/// Whether a complaint is one about the first way of uploading.
pub open spec fn about_v3(message: Seq<char>) -> bool {
    "fal_v3: "@.is_prefix_of(message)
}

/// Whether a complaint is one about the second way of uploading.
pub open spec fn about_cdn(message: Seq<char>) -> bool {
    "cdn: "@.is_prefix_of(message)
}

/// Whether a complaint is one about the third way of uploading.
pub open spec fn about_storage(message: Seq<char>) -> bool {
    "storage: "@.is_prefix_of(message)
}

/// An upload fails only because the file cannot be read, or because each of
/// the three ways failed; then it tells the three reasons in the order in
/// which the ways were tried. The second way is tried only after the first
/// failed, and the third only after both failed.
pub proof fn law_upload_tries_three_ways(
    file: LocalFile<Seq<char>>,
    events: Seq<Event<Seq<char>>>,
)
    ensures
        match upload_after(file, events) {
            Progress::Going(upload) => {
                &&& upload.file == file
                &&& match upload.stage {
                    UploadStage::Cdn { v3 } => about_v3(v3),
                    UploadStage::Storage { v3, cdn } => about_v3(v3) && about_cdn(cdn),
                    UploadStage::StoragePut { v3, cdn, .. } => about_v3(v3) && about_cdn(cdn),
                    _ => true,
                }
            },
            Progress::Uploaded(_) => true,
            Progress::Failed(message) => {
                ||| ("read "@ + file.path + ": "@).is_prefix_of(message)
                ||| exists|v3: Seq<char>, cdn: Seq<char>, storage: Seq<char>|
                    #![trigger about_v3(v3), about_cdn(cdn), about_storage(storage)]
                    about_v3(v3) && about_cdn(cdn) && about_storage(storage) && message
                        == "all fal upload methods failed: "@ + v3 + " | "@ + cdn + " | "@ + storage
            },
        },
    decreases events.len(),
{
    if events.len() > 0 {
        law_upload_tries_three_ways(file, events.drop_last());
        match upload_after(file, events.drop_last()) {
            Progress::Going(upload) => {
                lemma_step_keeps_reasons(upload, events.last());
            },
            _ => {},
        }
    }
}

/// What starts with `a` followed by anything.
proof fn lemma_prefix(a: Seq<char>, b: Seq<char>)
    ensures
        a.is_prefix_of(a + b),
{
    assert((a + b).subrange(0, a.len() as int) =~= a);
}

/// One step keeps the reasons of an upload in order.
proof fn lemma_step_keeps_reasons(upload: UploadModel, event: Event<Seq<char>>)
    requires
        match upload.stage {
            UploadStage::Cdn { v3 } => about_v3(v3),
            UploadStage::Storage { v3, cdn } => about_v3(v3) && about_cdn(cdn),
            UploadStage::StoragePut { v3, cdn, .. } => about_v3(v3) && about_cdn(cdn),
            _ => true,
        },
    ensures
        match upload.next(event) {
            Progress::Going(next) => {
                &&& next.file == upload.file
                &&& match next.stage {
                    UploadStage::Cdn { v3 } => about_v3(v3),
                    UploadStage::Storage { v3, cdn } => about_v3(v3) && about_cdn(cdn),
                    UploadStage::StoragePut { v3, cdn, .. } => about_v3(v3) && about_cdn(cdn),
                    _ => true,
                }
            },
            Progress::Uploaded(_) => true,
            Progress::Failed(message) => {
                ||| ("read "@ + upload.file.path + ": "@).is_prefix_of(message)
                ||| exists|v3: Seq<char>, cdn: Seq<char>, storage: Seq<char>|
                    #![trigger about_v3(v3), about_cdn(cdn), about_storage(storage)]
                    about_v3(v3) && about_cdn(cdn) && about_storage(storage) && message
                        == "all fal upload methods failed: "@ + v3 + " | "@ + cdn + " | "@ + storage
            },
        },
{
    assert forall|message: Seq<char>| about_v3(#[trigger] ("fal_v3: "@ + message)) by {
        lemma_prefix("fal_v3: "@, message);
    }
    assert forall|message: Seq<char>| about_cdn(#[trigger] ("cdn: "@ + message)) by {
        lemma_prefix("cdn: "@, message);
    }
    assert forall|message: Seq<char>| about_storage(#[trigger] ("storage: "@ + message)) by {
        lemma_prefix("storage: "@, message);
    }
    if event is Failed {
        lemma_prefix("read "@ + upload.file.path + ": "@, event->Failed_0);
    }
}

/// The answers to the parts of an upload that all go well: for each part a
/// status and a tag.
pub open spec fn receipts(statuses: Seq<Status>, tags: Seq<Seq<char>>) -> Seq<Event<Seq<char>>> {
    Seq::new(tags.len(), |i: int| Event::Receipt { status: statuses[i], etag: Some(tags[i]) })
}

/// Whether every status stands for success.
pub open spec fn all_well(statuses: Seq<Status>) -> bool {
    forall|i: int| 0 <= i < statuses.len() ==> success(#[trigger] statuses[i]@)
}

/// An upload in parts in which every part goes well sends the parts in order,
/// each once, and then ends with the tags of all of them in that order.
pub proof fn law_parts_go_in_order(
    run: SessionModel,
    file: LocalFile<Seq<char>>,
    upload: Multipart<Seq<char>>,
    size: u64,
    statuses: Seq<Status>,
    tags: Seq<Seq<char>>,
)
    requires
        run.stage == StageModel::Uploading(
            Upload { file, stage: UploadStage::Open { upload, size } },
        ),
        statuses.len() == tags.len() <= part_count_of(size),
        all_well(statuses),
    ensures
        ({
            let sent = after(run, seq![Event::Done] + receipts(statuses, tags));
            &&& sent.stage == StageModel::Uploading(
                Upload {
                    file,
                    stage: if tags.len() < part_count_of(size) {
                        UploadStage::Part { upload, size, etags: tags }
                    } else {
                        UploadStage::Complete { upload, etags: tags }
                    },
                },
            )
            &&& tags.len() < part_count_of(size) ==> sent.pending_action() == Action::<
                Seq<char>,
                Json,
            >::Deliver(upload.part_request(file.label, size, tags.len() as int + 1))
            &&& tags.len() == part_count_of(size) ==> sent.pending_action() == Action::<
                Seq<char>,
                Json,
            >::Send(upload.complete_request(tags))
        }),
    decreases tags.len(),
{
    let events = seq![Event::Done] + receipts(statuses, tags);
    if tags.len() == 0 {
        assert(tags =~= Seq::empty());
        assert(events.drop_last() =~= Seq::empty());
        assert(events.last() == Event::<Seq<char>>::Done);
        reveal_with_fuel(after, 2);
    } else {
        let fewer = statuses.drop_last();
        assert forall|i: int| 0 <= i < fewer.len() implies success(#[trigger] fewer[i]@) by {
            assert(fewer[i] == statuses[i]);
        }
        law_parts_go_in_order(run, file, upload, size, fewer, tags.drop_last());
        assert(events.drop_last() =~= seq![Event::Done] + receipts(fewer, tags.drop_last()));
        assert(success(statuses[tags.len() - 1]@));
        assert(tags.drop_last().push(tags.last()) =~= tags);
    }
}

/// A file that is too large to go in one piece and whose upload in parts goes
/// well, part by part, is found under the address that the service gave it.
/// The parts go by the size that the file has when they are cut.
pub proof fn law_large_file_goes_in_parts(
    client: FalClient<Seq<char>>,
    cli: Cli<Seq<char>, Json>,
    label: FileLabel<Seq<char>>,
    permitted: Event<Seq<char>>,
    token: CdnToken<Seq<char>>,
    size: u64,
    created: Event<Seq<char>>,
    cut_size: u64,
    statuses: Seq<Status>,
    tags: Seq<Seq<char>>,
    completed: Event<Seq<char>>,
)
    requires
        !url_like(cli.input),
        size > MULTIPART_THRESHOLD,
        statuses.len() == tags.len() == part_count_of(cut_size),
        all_well(statuses),
    ensures
        ({
            let opening = seq![
                Event::Done,
                Event::Done,
                permitted,
                Event::Token(token),
                Event::Size(size),
                created,
                Event::Size(cut_size),
            ];
            let sending = seq![Event::Done] + receipts(statuses, tags);
            let last = after(started(client, cli, label), opening + sending + seq![completed]);
            good_reply(permitted) is Some && good_reply(created) is Some && good_reply(
                created,
            )->0.text_member("access_url"@) is Some && good_reply(created)->0.text_member(
                "uploadId"@,
            ) is Some && good_reply(completed) is Some ==> last.stage == StageModel::Announcing(
                file_input(cli.input, good_reply(created)->0.text_member("access_url"@)->0),
            )
        }),
{
    let run = started(client, cli, label);
    let opening = seq![
        Event::Done,
        Event::Done,
        permitted,
        Event::Token(token),
        Event::Size(size),
        created,
        Event::Size(cut_size),
    ];
    let sending = seq![Event::Done] + receipts(statuses, tags);
    if good_reply(permitted) is Some && good_reply(created) is Some && good_reply(
        created,
    )->0.text_member("access_url"@) is Some && good_reply(created)->0.text_member(
        "uploadId"@,
    ) is Some && good_reply(completed) is Some {
        let file = LocalFile { path: cli.input, label };
        let upload = Multipart {
            authorization: token.authorization(),
            access_url: good_reply(created)->0.text_member("access_url"@)->0,
            upload_id: good_reply(created)->0.text_member("uploadId"@)->0,
        };
        assert(after(run, opening).stage == StageModel::Uploading(
            Upload { file, stage: UploadStage::Open { upload, size: cut_size } },
        )) by {
            assert(opening.take(7) =~= opening);
            assert(opening.take(7).drop_last() =~= opening.take(6));
            assert(opening.take(6).drop_last() =~= opening.take(5));
            assert(opening.take(5).drop_last() =~= opening.take(4));
            assert(opening.take(4).drop_last() =~= opening.take(3));
            assert(opening.take(3).drop_last() =~= opening.take(2));
            assert(opening.take(2).drop_last() =~= opening.take(1));
            assert(opening.take(1).drop_last() =~= opening.take(0));
            reveal_with_fuel(after, 8);
        }
        law_setting_is_kept(run, opening);
        law_answers_add_up(run, opening, sending);
        law_parts_go_in_order(after(run, opening), file, upload, cut_size, statuses, tags);
        law_setting_is_kept(run, opening + sending);
        let events = opening + sending + seq![completed];
        assert(events.drop_last() =~= opening + sending);
        assert(events.last() == completed);
    }
}

/// Who is told what: the queue, the token and storage services are shown the
/// key, the second place for files is shown the key as a bearer, the first
/// place is shown the permission that it gave, and the address that the
/// storage gave is shown nothing.
pub proof fn law_authorization(run: SessionModel)
    ensures
        run.pending_action() matches Action::Send(request) ==> request.headers.authorization
            == match run.stage {
            Stage::Uploading(upload) => match upload.stage {
                UploadStage::Single(token) | UploadStage::Create(token) => Some(
                    token.authorization(),
                ),
                UploadStage::Complete { upload: parts, .. } => Some(parts.authorization),
                UploadStage::Cdn { .. } => Some(run.client.bearer_authorization()),
                _ => Some(run.client.key_authorization()),
            },
            _ => Some(run.client.key_authorization()),
        },
        run.pending_action() matches Action::Deliver(request) ==> request.headers.authorization
            == match run.stage {
            Stage::Uploading(upload) => match upload.stage {
                UploadStage::Part { upload: parts, .. } => Some(parts.authorization),
                _ => None,
            },
            _ => None,
        },
{
}

/// A run after no answer is the run itself, and a further answer is taken by the
/// run after the answers before it.
pub proof fn law_answers_one_by_one(
    run: SessionModel,
    events: Seq<Event<Seq<char>>>,
    event: Event<Seq<char>>,
)
    ensures
        after(run, Seq::empty()) == run,
        after(run, events.push(event)) == after(run, events).next(event),
{
    assert(events.push(event).drop_last() =~= events);
}

/// A reply counts as good where its status is from 200 to 299, and then for what
/// its text stands for.
pub proof fn law_good_replies(status: Status, text: Seq<char>, contents: Json)
    ensures
        200 <= status@ <= 299 && parsed(text) == Some(contents) ==> good_reply(
            Event::Reply { status, text },
        ) == Some(contents),
        !(200 <= status@ <= 299) ==> good_reply(Event::Reply { status, text }) is None,
{
}

/// A public address goes straight through: the first thing that a run on it
/// sends, right after telling the user, is the request for a storyboard of the
/// one video at that address, which is the input itself, character for
/// character. The request goes into the queue, with the key.
pub proof fn law_address_goes_straight_through(
    client: FalClient<Seq<char>>,
    cli: Cli<Seq<char>, Json>,
    label: FileLabel<Seq<char>>,
)
    requires
        "http://"@.is_prefix_of(cli.input) || "https://"@.is_prefix_of(cli.input),
    ensures
        started(client, cli, label).pending_action() is Note,
        started(client, cli, label).next(Event::Done).pending_action() matches Action::Send(request)
            && {
            &&& request.method == Method::Post
            &&& request.url == trimmed_end(client.queue_url, slash()) + "/openrouter/router/video"@
            &&& request.headers.authorization == Some("Key "@ + client.fal_key)
            &&& request.body matches Body::Json(body) && {
                &&& body.member("video_urls"@) == Some(Json::List(seq![Json::Text(cli.input)]))
                &&& body.member("model"@) == Some(Json::Text(cli.model))
                &&& body.member("temperature"@) == Some(cli.temperature)
                &&& body.member("max_tokens"@) == Some(Json::Int(cli.max_output_tokens as int))
                &&& body.member("prompt"@) == Some(Json::Text(prompt_with(cli.prompt)))
            }
        },
{
    law_request_members(cli, cli.input);
    law_endpoint_addresses(client, Seq::empty(), request_contents(cli, cli.input));
}

/// A file goes through by the address that its upload came to: once the upload
/// has ended with an address, the request for a storyboard, which follows right
/// after telling the user, names the one video at that address.
pub proof fn law_uploaded_address_goes_through(
    run: SessionModel,
    upload: UploadModel,
    event: Event<Seq<char>>,
    url: Seq<char>,
)
    requires
        run.stage == StageModel::Uploading(upload),
        upload.next(event) == ProgressModel::Uploaded(url),
    ensures
        run.next(event).pending_action() is Note,
        run.next(event).next(Event::Done).pending_action() matches Action::Send(request) && {
            &&& request.method == Method::Post
            &&& request.url == trimmed_end(run.client.queue_url, slash())
                + "/openrouter/router/video"@
            &&& request.headers.authorization == Some("Key "@ + run.client.fal_key)
            &&& request.body matches Body::Json(body) && body.member("video_urls"@) == Some(
                Json::List(seq![Json::Text(url)]),
            )
        },
{
    law_request_members(run.cli, url);
    law_endpoint_addresses(run.client, Seq::empty(), request_contents(run.cli, url));
}

/// Whatever bytes of the file a run on a file sends, and whichever of the ways
/// it is at, it says that they are of the file's media type, and it sends them
/// to a place for files under the file's own name, unless that place has named
/// the file already.
pub proof fn law_sent_bytes_are_labelled(
    client: FalClient<Seq<char>>,
    cli: Cli<Seq<char>, Json>,
    label: FileLabel<Seq<char>>,
    events: Seq<Event<Seq<char>>>,
)
    ensures
        ({
            let run = after(started(client, cli, label), events);
            &&& run.pending_action() matches Action::Send(request) ==> {
                &&& request.body is File ==> request.headers.content_type == Some(
                    label.content_type,
                ) && request.headers.file_name == Some(label.name)
                &&& !(request.body is Part)
            }
            &&& run.pending_action() matches Action::Deliver(request) ==> {
                &&& request.body is File || request.body is Part
                &&& request.headers.content_type == Some(label.content_type)
            }
        }),
{
    if url_like(cli.input) {
        law_web_address_is_passed_on(client, cli, label, events);
    } else {
        law_file_is_uploaded_first(client, cli, label, events);
    }
}

/// A file that goes in parts is reported whole: once every part of 10 MiB has
/// been sent and has its tag, the request that ends the upload lists all the
/// tags, in the order of the parts, each with the number of its part.
pub proof fn law_every_sent_part_is_told(
    run: SessionModel,
    file: LocalFile<Seq<char>>,
    upload: Multipart<Seq<char>>,
    size: u64,
    statuses: Seq<Status>,
    tags: Seq<Seq<char>>,
)
    requires
        run.stage == StageModel::Uploading(
            Upload { file, stage: UploadStage::Open { upload, size } },
        ),
        statuses.len() == tags.len(),
        size <= tags.len() * (10 * 1024 * 1024) < size + 10 * 1024 * 1024,
        forall|i: int| 0 <= i < statuses.len() ==> 200 <= (#[trigger] statuses[i])@ <= 299,
    ensures
        after(
            run,
            seq![Event::Done] + Seq::new(
                tags.len(),
                |i: int| Event::Receipt { status: statuses[i], etag: Some(tags[i]) },
            ),
        ).pending_action() matches Action::Send(request) && {
            &&& request.method == Method::Post
            &&& request.url == trimmed_end(upload.access_url, slash()) + "/multipart/"@
                + upload.upload_id + "/"@ + "complete"@
            &&& request.headers.authorization == Some(upload.authorization)
            &&& request.body matches Body::Json(body) && body.member("parts"@) matches Some(
                Json::List(list),
            ) && {
                &&& list.len() == tags.len()
                &&& forall|i: int|
                    0 <= i < tags.len() ==> (#[trigger] list[i]).member("partNumber"@) == Some(
                        Json::Int(i + 1),
                    ) && list[i].member("etag"@) == Some(Json::Text(tags[i]))
            }
        },
{
    let events = seq![Event::Done] + Seq::new(
        tags.len(),
        |i: int| Event::Receipt { status: statuses[i], etag: Some(tags[i]) },
    );
    assert(events =~= seq![Event::Done] + receipts(statuses, tags));
    assert(tags.len() * (10 * 1024 * 1024) == tags.len() * 10_485_760);
    assert(tags.len() == part_count_of(size));
    law_parts_go_in_order(run, file, upload, size, statuses, tags);
    law_complete_tells_every_part(upload, tags);
    assert(upload.complete_request(tags).url =~= trimmed_end(upload.access_url, slash())
        + "/multipart/"@ + upload.upload_id + "/"@ + "complete"@);
}

/// While the parts of a file go out, the part that is due starts where those
/// that have their tags end, and is sent under its own number.
pub proof fn law_due_part(
    run: SessionModel,
    file: LocalFile<Seq<char>>,
    upload: Multipart<Seq<char>>,
    size: u64,
    tags: Seq<Seq<char>>,
)
    requires
        run.stage == StageModel::Uploading(
            Upload { file, stage: UploadStage::Part { upload, size, etags: tags } },
        ),
        tags.len() * (10 * 1024 * 1024) < size,
    ensures
        run.pending_action() matches Action::Deliver(request) && {
            &&& request.method == Method::Put
            &&& request.url == trimmed_end(upload.access_url, slash()) + "/multipart/"@
                + upload.upload_id + "/"@ + decimal(tags.len() + 1)
            &&& request.headers.authorization == Some(upload.authorization)
            &&& request.headers.content_type == Some(file.label.content_type)
            &&& request.body matches Body::Part { start, len } && {
                &&& start == tags.len() * (10 * 1024 * 1024)
                &&& 0 < len <= 10 * 1024 * 1024
                &&& start + len <= size
                &&& len == 10 * 1024 * 1024 || start + len == size
            }
        },
{
    assert(tags.len() * (10 * 1024 * 1024) == tags.len() * 10_485_760);
    assert(1 <= tags.len() + 1 <= part_count_of(size));
    assert(upload.part_request(file.label, size, tags.len() as int + 1).url =~= trimmed_end(
        upload.access_url,
        slash(),
    ) + "/multipart/"@ + upload.upload_id + "/"@ + decimal(tags.len() + 1));
}

/// A look at the queue that finds the request neither `COMPLETED` nor `FAILED`
/// ends the run where, to the nanosecond, more time has passed than the user
/// allows; otherwise the run sleeps, for the user's interval or for a second
/// where that is nothing, and is then where it was before it looked.
pub proof fn law_undecided_look(
    run: SessionModel,
    job: Job<Seq<char>>,
    reply: Json,
    secs: u64,
    nanos: u32,
)
    requires
        run.stage == StageModel::Polling(job),
        reply.member("status"@) != Some(Json::Text("COMPLETED"@)),
        reply.member("status"@) != Some(Json::Text("FAILED"@)),
        nanos < 1_000_000_000,
    ensures
        ({
            let looked = Session { stage: run.after_reply(Ok(reply)), ..run };
            let timed = looked.next(Event::Elapsed { secs, nanos });
            let late = secs * 1_000_000_000 + nanos > run.cli.max_wait_secs * 1_000_000_000;
            &&& looked.pending_action() is ReadClock
            &&& late <==> timed.pending_action() is Fail
            &&& late ==> timed.pending_action() == Action::<Seq<char>, Json>::Fail(
                "timeout waiting for "@ + job.request_id,
            )
            &&& !late ==> timed.pending_action() == Action::<Seq<char>, Json>::Sleep(
                if run.cli.poll_interval_secs == 0 {
                    1
                } else {
                    run.cli.poll_interval_secs
                },
            )
            &&& !late ==> timed.next(Event::Done) == run
        }),
{
    law_queue_decides(run, job, reply);
    let looked = Session { stage: run.after_reply(Ok(reply)), ..run };
    law_time_limit(looked, job, secs, nanos);
}

/// From the address to the storyboard: the queue takes the request under a name,
/// calls it `COMPLETED` at the first look and hands out a result. Then the run
/// ends with the text of the result, character for character, with what the
/// result says was used up, and with what the run was about.
pub proof fn law_address_gives_the_storyboard(
    client: FalClient<Seq<char>>,
    cli: Cli<Seq<char>, Json>,
    label: FileLabel<Seq<char>>,
    submitted: Event<Seq<char>>,
    request_id: Seq<char>,
    polled: Event<Seq<char>>,
    fetched: Event<Seq<char>>,
    text: Seq<char>,
)
    requires
        "http://"@.is_prefix_of(cli.input) || "https://"@.is_prefix_of(cli.input),
    ensures
        good_reply(submitted) is Some && (good_reply(polled) matches Some(said) && said.member(
            "status"@,
        ) == Some(Json::Text("COMPLETED"@))) && (good_reply(fetched) matches Some(result)
            && result.member("output"@) == Some(Json::Text(text))) ==> (after(
            started(client, cli, label),
            seq![
                Event::Done,
                submitted,
                Event::Queued(request_id),
                Event::Done,
                Event::Done,
                polled,
                fetched,
            ],
        ).pending_action() matches Action::Finish(out) && {
            let usage = good_reply(fetched)->0.member("usage"@);
            &&& out.output == text
            &&& usage is Some ==> out.usage == usage->0
            &&& usage is None ==> out.usage == Json::Object(Map::<Seq<char>, Json>::empty())
            &&& out.request_id == request_id
            &&& out.model == cli.model
            &&& out.input.kind == "url"@
            &&& out.input.source == cli.input
            &&& out.input.resolved_url == cli.input
            &&& out.provider == "fal-openrouter-video"@
            &&& out.endpoint == "openrouter/router/video"@
        }),
{
    if good_reply(submitted) is Some && good_reply(polled) is Some && good_reply(polled)->0.member(
        "status"@,
    ) == Some(Json::Text("COMPLETED"@)) && good_reply(fetched) is Some && good_reply(
        fetched,
    )->0.member("output"@) == Some(Json::Text(text)) {
        let run = started(client, cli, label);
        let input = url_input(cli.input);
        let job = Job { input, request_id };
        law_good_replies_give_the_storyboard(
            run,
            input,
            submitted,
            request_id,
            Seq::empty(),
            polled,
            fetched,
        );
        law_verdicts(good_reply(polled)->0);
        law_output_members(cli, job, good_reply(fetched)->0, text);
        let opening = seq![
            Event::Done,
            submitted,
            Event::Queued(request_id),
            Event::Done,
            Event::Done,
        ];
        assert(opening + rounds(Seq::empty()) + seq![polled, fetched] =~= seq![
            Event::Done,
            submitted,
            Event::Queued(request_id),
            Event::Done,
            Event::Done,
            polled,
            fetched,
        ]);
    }
}

/// The storyboard that a run ends with is one that the service sent: some answer
/// was a good reply whose member `output` is the storyboard, character for
/// character, and whose member `usage`, or an object without members in its
/// place, is what the run says was used up.
pub proof fn law_storyboard_was_sent(
    client: FalClient<Seq<char>>,
    cli: Cli<Seq<char>, Json>,
    label: FileLabel<Seq<char>>,
    events: Seq<Event<Seq<char>>>,
)
    ensures
        after(started(client, cli, label), events).pending_action() matches Action::Finish(out)
            ==> exists|k: int|
            0 <= k < events.len() && good_reply(#[trigger] events[k]) is Some && {
                let result = good_reply(events[k])->0;
                &&& result.member("output"@) == Some(Json::Text(out.output))
                &&& result.member("usage"@) is Some ==> result.member("usage"@) == Some(out.usage)
                &&& result.member("usage"@) is None ==> out.usage == Json::Object(
                    Map::<Seq<char>, Json>::empty(),
                )
            },
{
    law_output_is_the_result(client, cli, label, events);
    let run = after(started(client, cli, label), events);
    if run.pending_action() is Finish {
        assert(run.stage is Finished) by {
            if run.stage is Uploading {
                law_upload_asks(run.stage->Uploading_0, run.client);
            }
        }
        let out = run.stage->Finished_0;
        let k = choose|k: int|
            0 <= k < events.len() && fetches_at(client, cli, label, events, k, out);
        let job = after(started(client, cli, label), events.take(k)).stage->Fetching_0;
        let result = good_reply(events[k])->0;
        if result.member("output"@) is Some && result.member("output"@)->0 is Text {
            law_output_members(cli, job, result, result.member("output"@)->0->Text_0);
        } else {
            law_output_members(cli, job, result, Seq::empty());
        }
        assert(good_reply(events[k]) is Some);
    }
}

} // verus!
