//! Properties of whole start-ups, over the state machine's model.

use vstd::prelude::*;
use crate::error::{exit_code_text, failure_message, StartupFailure};
use crate::marker::{port_marker, scan_spec, LineScan};
use crate::supervisor::{
    executable_path_of, react_spec, run, step, EventModel, StageModel, WorkerEventModel,
};
use crate::text::{
    all_digits, digits_value, int_text, is_digit, is_white_space, parse_u16_text, trim_end_ws,
    trim_start_ws, trim_ws,
};

verus! {

/// The events of a start-up that found its resource directory at `root`, the
/// executable in it, and started it.
pub open spec fn launched(root: Seq<char>) -> Seq<EventModel> {
    seq![
        EventModel::ResourceDir(Ok(root)),
        EventModel::ExecutableChecked(true),
        EventModel::Spawned(Ok(())),
    ]
}

/// The worker's output events, as events of the start-up.
pub open spec fn outputs(ws: Seq<WorkerEventModel>) -> Seq<EventModel> {
    ws.map_values(|w: WorkerEventModel| EventModel::Output(w))
}

/// Output events that leave the handshake waiting: log lines without the
/// port marker, standard error, and events of other kinds.
pub open spec fn all_chatter(ws: Seq<WorkerEventModel>) -> bool {
    forall|i: int| 0 <= i < ws.len() ==> (#[trigger] react_spec(ws[i])) is None
}

proof fn lemma_run_finished(o: Result<u16, StartupFailure>, es: Seq<EventModel>)
    ensures
        run(StageModel::Finished(o), es) == StageModel::Finished(o),
    decreases es.len(),
{
    if es.len() > 0 {
        lemma_run_finished(o, es.drop_first());
    }
}

proof fn lemma_run_concat(s: StageModel, a: Seq<EventModel>, b: Seq<EventModel>)
    ensures
        run(s, a + b) == run(run(s, a), b),
    decreases a.len(),
{
    if a.len() > 0 {
        assert((a + b).drop_first() =~= a.drop_first() + b);
        lemma_run_concat(step(s, a[0]), a.drop_first(), b);
    } else {
        assert(a + b =~= b);
    }
}

proof fn lemma_chatter(ws: Seq<WorkerEventModel>)
    requires
        all_chatter(ws),
    ensures
        run(StageModel::AwaitingHandshake, outputs(ws)) == StageModel::AwaitingHandshake,
    decreases ws.len(),
{
    if ws.len() > 0 {
        assert(react_spec(ws[0]) is None);
        assert(outputs(ws).drop_first() =~= outputs(ws.drop_first()));
        assert(all_chatter(ws.drop_first())) by {
            assert forall|i: int| 0 <= i < ws.drop_first().len() implies (#[trigger] react_spec(
                ws.drop_first()[i],
            )) is None by {
                assert(ws.drop_first()[i] == ws[i + 1]);
            }
        }
        lemma_chatter(ws.drop_first());
    }
}

/// After a launch and output chatter, the next output event `e` decides the
/// start-up as one step from the waiting stage would.
proof fn lemma_after_chatter(
    root: Seq<char>,
    chatter: Seq<WorkerEventModel>,
    e: EventModel,
    later: Seq<EventModel>,
)
    requires
        all_chatter(chatter),
    ensures
        run(StageModel::ResolvingPath, launched(root) + outputs(chatter) + seq![e] + later) == run(
            step(StageModel::AwaitingHandshake, e),
            later,
        ),
{
    let s0 = StageModel::ResolvingPath;
    lemma_run_concat(s0, launched(root) + outputs(chatter) + seq![e], later);
    lemma_run_concat(s0, launched(root) + outputs(chatter), seq![e]);
    lemma_run_concat(s0, launched(root), outputs(chatter));
    let l = launched(root);
    let p = executable_path_of(root);
    let l1 = seq![EventModel::ExecutableChecked(true), EventModel::Spawned(Ok(()))];
    let l2 = seq![EventModel::Spawned(Ok(()))];
    let empty = Seq::<EventModel>::empty();
    assert(l.drop_first() =~= l1);
    assert(l1.drop_first() =~= l2);
    assert(l2.drop_first() =~= empty);
    assert(run(StageModel::Spawning(p), l2) == run(StageModel::AwaitingHandshake, empty));
    assert(run(StageModel::CheckingExistence(p), l1) == run(StageModel::Spawning(p), l2));
    assert(run(s0, l) == run(StageModel::CheckingExistence(p), l1));
    assert(run(s0, launched(root)) == StageModel::AwaitingHandshake);
    lemma_chatter(chatter);
    assert(seq![e].drop_first() =~= empty);
    assert(run(StageModel::AwaitingHandshake, seq![e]) == run(
        step(StageModel::AwaitingHandshake, e),
        empty,
    ));
}

/// A line that is the port marker, then a decimal port, then white space.
proof fn lemma_marker_line(digits: Seq<char>, tail: Seq<char>, port: u16)
    requires
        digits.len() > 0,
        digits[0] != '+',
        all_digits(digits),
        digits_value(digits) == port as nat,
        forall|i: int| 0 <= i < tail.len() ==> #[trigger] is_white_space(tail[i]),
    ensures
        scan_spec(port_marker() + digits + tail) == LineScan::Marker(Some(port)),
{
    let line = port_marker() + digits + tail;
    assert(port_marker().is_prefix_of(line)) by {
        assert(line.subrange(0, port_marker().len() as int) =~= port_marker());
    }
    assert(line.skip(port_marker().len() as int) =~= digits + tail);
    assert(trim_start_ws(digits + tail) == digits + tail) by {
        assert((digits + tail)[0] == digits[0]);
        assert(!is_white_space(digits[0])) by {
            assert(is_digit(digits[0]));
        }
    }
    lemma_trim_end_white(digits, tail);
    assert(trim_ws(digits + tail) == digits);
}

proof fn lemma_trim_end_white(digits: Seq<char>, tail: Seq<char>)
    requires
        digits.len() > 0,
        all_digits(digits),
        forall|i: int| 0 <= i < tail.len() ==> #[trigger] is_white_space(tail[i]),
    ensures
        trim_end_ws(digits + tail) == digits,
    decreases tail.len(),
{
    if tail.len() > 0 {
        assert((digits + tail).last() == tail.last());
        assert(is_white_space(tail[tail.len() - 1]));
        assert((digits + tail).drop_last() =~= digits + tail.drop_last());
        assert forall|i: int| 0 <= i < tail.drop_last().len() implies #[trigger] is_white_space(
            tail.drop_last()[i],
        ) by {
            assert(tail.drop_last()[i] == tail[i]);
        }
        lemma_trim_end_white(digits, tail.drop_last());
    } else {
        assert(digits + tail =~= digits);
        assert(is_digit(digits.last()));
    }
}

/// A worker that, once started, first writes the line
/// `SHIPAGENT_PORT=54321` reports port 54321, whatever comes after.
pub proof fn law_reported_port(root: Seq<char>, later: Seq<EventModel>)
    ensures
        run(
            StageModel::ResolvingPath,
            launched(root) + seq![
                EventModel::Output(WorkerEventModel::Stdout("SHIPAGENT_PORT=54321\n"@)),
            ] + later,
        ) == StageModel::Finished(Ok(54321)),
{
    reveal_strlit("SHIPAGENT_PORT=54321\n");
    reveal_strlit("SHIPAGENT_PORT=");
    reveal_with_fuel(digits_value, 6);
    let digits = seq!['5', '4', '3', '2', '1'];
    let tail = seq!['\n'];
    assert("SHIPAGENT_PORT=54321\n"@ =~= port_marker() + digits + tail);
    assert(all_digits(digits)) by {
        assert forall|i: int| 0 <= i < digits.len() implies #[trigger] is_digit(digits[i]) by {}
    }
    lemma_marker_line(digits, tail, 54321);
    let e = EventModel::Output(WorkerEventModel::Stdout("SHIPAGENT_PORT=54321\n"@));
    let none = Seq::<WorkerEventModel>::empty();
    assert(outputs(none) =~= Seq::<EventModel>::empty());
    assert(launched(root) + outputs(none) =~= launched(root));
    lemma_after_chatter(root, none, e, later);
    lemma_run_finished(Ok(54321), later);
}

/// When no executable is found, the start-up fails with the path looked at,
/// and the message ends with that path.
pub proof fn law_missing_executable(root: Seq<char>, later: Seq<EventModel>)
    ensures
        ({
            let path = executable_path_of(root);
            let f = StartupFailure::ExecutableNotFound(path);
            let m = failure_message(f);
            &&& run(
                StageModel::ResolvingPath,
                seq![EventModel::ResourceDir(Ok(root)), EventModel::ExecutableChecked(false)]
                    + later,
            ) == StageModel::Finished(Err(f))
            &&& m.subrange(m.len() - path.len(), m.len() as int) == path
        }),
{
    let path = executable_path_of(root);
    let f = StartupFailure::ExecutableNotFound(path);
    let es = seq![EventModel::ResourceDir(Ok(root)), EventModel::ExecutableChecked(false)];
    let rest = seq![EventModel::ExecutableChecked(false)];
    assert(es.drop_first() =~= rest);
    assert(rest.drop_first() =~= Seq::<EventModel>::empty());
    assert(run(StageModel::CheckingExistence(path), rest) == run(
        StageModel::Finished(Err(f)),
        Seq::<EventModel>::empty(),
    ));
    assert(run(StageModel::ResolvingPath, es) == run(StageModel::CheckingExistence(path), rest));
    lemma_run_concat(StageModel::ResolvingPath, es, later);
    lemma_run_finished(Err(f), later);
    let m = failure_message(f);
    assert(m.subrange(m.len() - path.len(), m.len() as int) =~= path);
}

/// A worker whose first marker line does not hold a port, as in
/// `SHIPAGENT_PORT=not-a-number`, fails as one that reported none; what it
/// does afterwards, ending included, does not count.
pub proof fn law_malformed_marker(root: Seq<char>, later: Seq<EventModel>)
    ensures
        run(
            StageModel::ResolvingPath,
            launched(root) + seq![
                EventModel::Output(WorkerEventModel::Stdout("SHIPAGENT_PORT=not-a-number\n"@)),
            ] + later,
        ) == StageModel::Finished(Err(StartupFailure::NoPortReported)),
{
    reveal_strlit("SHIPAGENT_PORT=not-a-number\n");
    reveal_strlit("SHIPAGENT_PORT=");
    let line = "SHIPAGENT_PORT=not-a-number\n"@;
    let rest = seq!['n', 'o', 't', '-', 'a', '-', 'n', 'u', 'm', 'b', 'e', 'r', '\n'];
    let word = seq!['n', 'o', 't', '-', 'a', '-', 'n', 'u', 'm', 'b', 'e', 'r'];
    assert(line.subrange(0, port_marker().len() as int) =~= port_marker());
    assert(line.skip(port_marker().len() as int) =~= rest);
    assert(trim_start_ws(rest) == rest);
    assert(rest.drop_last() =~= word);
    assert(trim_end_ws(word) == word);
    assert(trim_ws(rest) == word);
    assert(!is_digit(word[0]));
    assert(parse_u16_text(word) is None);
    assert(scan_spec(line) == LineScan::Marker(None));
    let e = EventModel::Output(WorkerEventModel::Stdout(line));
    let none = Seq::<WorkerEventModel>::empty();
    assert(launched(root) + outputs(none) =~= launched(root));
    lemma_after_chatter(root, none, e, later);
    lemma_run_finished(Err(StartupFailure::NoPortReported), later);
}

/// An error on the worker's error channel before any port marker fails the
/// start-up with that error; a marker after it does not count.
pub proof fn law_stream_error_first(
    root: Seq<char>,
    chatter: Seq<WorkerEventModel>,
    msg: Seq<char>,
    later: Seq<EventModel>,
)
    requires
        all_chatter(chatter),
    ensures
        run(
            StageModel::ResolvingPath,
            launched(root) + outputs(chatter) + seq![
                EventModel::Output(WorkerEventModel::Error(msg)),
            ] + later,
        ) == StageModel::Finished(Err(StartupFailure::Stream(msg))),
        failure_message(StartupFailure::Stream(msg)) == "Backend stderr: "@ + msg,
{
    lemma_after_chatter(root, chatter, EventModel::Output(WorkerEventModel::Error(msg)), later);
    lemma_run_finished(Err(StartupFailure::Stream(msg)), later);
}

/// A worker that ends before any port marker fails the start-up with its exit
/// code, which the message shows.
pub proof fn law_early_exit(
    root: Seq<char>,
    chatter: Seq<WorkerEventModel>,
    code: Option<i32>,
    later: Seq<EventModel>,
)
    requires
        all_chatter(chatter),
    ensures
        run(
            StageModel::ResolvingPath,
            launched(root) + outputs(chatter) + seq![
                EventModel::Output(WorkerEventModel::Terminated(code)),
            ] + later,
        ) == StageModel::Finished(Err(StartupFailure::EarlyTermination(code))),
        failure_message(StartupFailure::EarlyTermination(code)) == "Backend exited early: "@
            + exit_code_text(code),
        code matches Some(c) ==> exit_code_text(code) == "Some("@ + int_text(c as int) + ")"@,
{
    lemma_after_chatter(
        root,
        chatter,
        EventModel::Output(WorkerEventModel::Terminated(code)),
        later,
    );
    lemma_run_finished(Err(StartupFailure::EarlyTermination(code)), later);
}

/// After log lines, the first marker line `SHIPAGENT_PORT=8080` gives port
/// 8080; later output and the worker's exit do not change it.
pub proof fn law_first_marker_wins(
    root: Seq<char>,
    logs: Seq<WorkerEventModel>,
    later: Seq<EventModel>,
)
    requires
        all_chatter(logs),
    ensures
        run(
            StageModel::ResolvingPath,
            launched(root) + outputs(logs) + seq![
                EventModel::Output(WorkerEventModel::Stdout("SHIPAGENT_PORT=8080"@)),
            ] + later,
        ) == StageModel::Finished(Ok(8080)),
{
    reveal_strlit("SHIPAGENT_PORT=8080");
    reveal_strlit("SHIPAGENT_PORT=");
    reveal_with_fuel(digits_value, 5);
    let digits = seq!['8', '0', '8', '0'];
    let tail = Seq::<char>::empty();
    assert("SHIPAGENT_PORT=8080"@ =~= port_marker() + digits + tail);
    assert(all_digits(digits)) by {
        assert forall|i: int| 0 <= i < digits.len() implies #[trigger] is_digit(digits[i]) by {}
    }
    lemma_marker_line(digits, tail, 8080);
    let e = EventModel::Output(WorkerEventModel::Stdout("SHIPAGENT_PORT=8080"@));
    lemma_after_chatter(root, logs, e, later);
    lemma_run_finished(Ok(8080), later);
}

/// A worker whose output stream ends with no marker, no error and no exit
/// reported fails the start-up with no port reported.
pub proof fn law_no_marker(root: Seq<char>, logs: Seq<WorkerEventModel>, later: Seq<EventModel>)
    requires
        all_chatter(logs),
    ensures
        run(
            StageModel::ResolvingPath,
            launched(root) + outputs(logs) + seq![EventModel::OutputClosed] + later,
        ) == StageModel::Finished(Err(StartupFailure::NoPortReported)),
{
    lemma_after_chatter(root, logs, EventModel::OutputClosed, later);
    lemma_run_finished(Err(StartupFailure::NoPortReported), later);
}

} // verus!
