//! What the background readers make of the worker's output: the emissions
//! for its lines of protocol traffic, for its diagnostics and for its exit.

use vstd::prelude::*;
use vstd::string::StringExecFns;
use crate::error::DropModel;
use crate::error::DropReason;
use crate::json::JsonValue;
use crate::json::value_from_i32;
use crate::json::value_from_string;
use crate::json::value_null;
use crate::protocol::decode;
use crate::protocol::decode_spec;
use crate::router::Emission;
use crate::router::EmissionModel;
use crate::router::handle_sidecar_event;
use crate::router::route_spec;
use crate::text::lines_of;
use crate::text::split_lines;
use crate::text::texts_of;

verus! {

/// What becomes of one line of the worker's output: the emission of the
/// event in it, or the reason why there is none.
pub open spec fn line_outcome(line: Seq<char>) -> Result<EmissionModel, DropModel> {
    match decode_spec(line) {
        Ok(event) => match route_spec(event) {
            Some(emission) => Ok(emission),
            None => Err(DropModel::UnknownEventType(event.event_type)),
        },
        Err(e) => Err(DropModel::Undecodable(e)),
    }
}

/// What goes out for one line of the worker's output: nothing for a line
/// that is not an event, and nothing for an event of an unknown type.
pub open spec fn line_emission(line: Seq<char>) -> Option<EmissionModel> {
    match line_outcome(line) {
        Ok(emission) => Some(emission),
        Err(_) => None,
    }
}

/// What goes out for a run of lines: the emissions of the lines that have
/// one, in the order of the lines.
pub open spec fn emissions_of(lines: Seq<Seq<char>>) -> Seq<EmissionModel>
    decreases lines.len(),
{
    if lines.len() == 0 {
        Seq::empty()
    } else {
        let earlier = emissions_of(lines.drop_last());
        match line_emission(lines.last()) {
            Some(emission) => earlier.push(emission),
            None => earlier,
        }
    }
}

/// The models of a run of emissions.
pub open spec fn emission_models(emissions: Seq<Emission>) -> Seq<EmissionModel> {
    Seq::new(emissions.len(), |i: int| emissions[i]@)
}

/// Whether what was made of a line is what the model asks for.
pub open spec fn outcome_as(
    r: Result<Emission, DropReason>,
    expected: Result<EmissionModel, DropModel>,
) -> bool {
    match expected {
        Ok(model) => r matches Ok(emission) && emission@ == model,
        Err(model) => r matches Err(reason) && reason@ == model,
    }
}

/// Decodes one line and routes the event in it.
pub fn process_line(line: &str) -> (r: Result<Emission, DropReason>)
    ensures
        outcome_as(r, line_outcome(line@)),
{
    match decode(line) {
        Ok(event) => handle_sidecar_event(event),
        Err(e) => Err(DropReason::Undecodable(e)),
    }
}

/// Decodes and routes a run of lines, in order. A line that is not an event
/// is dropped, and so is an event of an unknown type; the lines after it are
/// handled as if it had not been there.
pub fn process_lines(lines: &Vec<String>) -> (out: Vec<Emission>)
    ensures
        emission_models(out@) == emissions_of(texts_of(lines@)),
{
    let mut out: Vec<Emission> = Vec::new();
    let mut i: usize = 0;
    assert(texts_of(lines@).subrange(0, 0) =~= Seq::empty());
    assert(emission_models(out@) =~= Seq::empty());
    while i < lines.len()
        invariant
            i <= lines.len(),
            emission_models(out@) == emissions_of(texts_of(lines@).subrange(0, i as int)),
        decreases lines.len() - i,
    {
        let ghost seen = texts_of(lines@).subrange(0, i as int + 1);
        let ghost before = emission_models(out@);
        proof {
            assert(seen.drop_last() =~= texts_of(lines@).subrange(0, i as int));
            assert(seen.last() == lines@[i as int]@);
        }
        match process_line(lines[i].as_str()) {
            Ok(emission) => {
                out.push(emission);
                assert(emission_models(out@) =~= before.push(emission@));
            },
            Err(_) => {},
        }
        i = i + 1;
    }
    assert(texts_of(lines@).subrange(0, i as int) =~= texts_of(lines@));
    out
}

/// Decodes and routes what was read from the worker's output stream, line
/// by line. A carriage return before a line break stays on its line, where
/// the JSON reader passes over it.
pub fn process_output(chunk: &str) -> (out: Vec<Emission>)
    ensures
        emission_models(out@) == emissions_of(lines_of(chunk@)),
{
    let lines = split_lines(chunk);
    process_lines(&lines)
}

/// The emissions of two runs of lines, one after the other, are those of the
/// first run followed by those of the second.
pub proof fn lemma_emissions_concat(first: Seq<Seq<char>>, second: Seq<Seq<char>>)
    ensures
        emissions_of(first + second) == emissions_of(first) + emissions_of(second),
    decreases second.len(),
{
    if second.len() == 0 {
        assert(first + second =~= first);
        assert(emissions_of(first) + emissions_of(second) =~= emissions_of(first));
    } else {
        let all = first + second;
        assert(all.drop_last() =~= first + second.drop_last());
        assert(all.last() == second.last());
        lemma_emissions_concat(first, second.drop_last());
        match line_emission(second.last()) {
            Some(emission) => {
                assert((emissions_of(first) + emissions_of(second.drop_last())).push(emission)
                    =~= emissions_of(first) + emissions_of(second.drop_last()).push(emission));
            },
            None => {},
        }
    }
}

/// A line that is not an event, or whose event has an unknown type, leaves
/// no trace: the lines around it give what they give without it.
pub proof fn lemma_dropped_line_leaves_no_trace(
    before: Seq<Seq<char>>,
    line: Seq<char>,
    after: Seq<Seq<char>>,
)
    ensures
        line_emission(line) is None ==> emissions_of(before.push(line) + after) == emissions_of(
            before + after,
        ),
{
    if line_emission(line) is None {
        lemma_emissions_concat(before.push(line), after);
        lemma_emissions_concat(before, after);
        assert(before.push(line).drop_last() =~= before);
    }
}

/// What a reader gets from the worker: a chunk of its output stream, made
/// of whole lines, a text from its diagnostic stream, a failure of the
/// stream itself, or the news that the process has exited.
#[derive(Debug)]
pub enum WorkerOutput {
    Stdout(String),
    Stderr(String),
    Error(String),
    /// The exit code is absent where the process was killed or the code is
    /// not known.
    Terminated { code: Option<i32> },
}

/// What a reader hands on: an emission for the UI, a diagnostic text of
/// the worker for the log, or the news that a line was dropped, for the log
/// too.
#[derive(Debug)]
pub enum Notice {
    Emit(Emission),
    Diagnostic(String),
    Dropped(DropReason),
}

/// The mathematical model of a notice.
pub ghost enum NoticeModel {
    Emit(EmissionModel),
    Diagnostic(Seq<char>),
    Dropped(DropModel),
}

impl View for Notice {
    type V = NoticeModel;

    open spec fn view(&self) -> NoticeModel {
        match self {
            Notice::Emit(emission) => NoticeModel::Emit(emission@),
            Notice::Diagnostic(text) => NoticeModel::Diagnostic(text@),
            Notice::Dropped(reason) => NoticeModel::Dropped(reason@),
        }
    }
}

/// The models of a run of notices.
pub open spec fn notice_models(notices: Seq<Notice>) -> Seq<NoticeModel> {
    Seq::new(notices.len(), |i: int| notices[i]@)
}

/// The notice for one line of the worker's output.
pub open spec fn line_notice(line: Seq<char>) -> NoticeModel {
    match line_outcome(line) {
        Ok(emission) => NoticeModel::Emit(emission),
        Err(reason) => NoticeModel::Dropped(reason),
    }
}

/// The notices for a run of lines: one for each line, in order.
pub open spec fn line_notices(lines: Seq<Seq<char>>) -> Seq<NoticeModel> {
    Seq::new(lines.len(), |i: int| line_notice(lines[i]))
}

/// What goes out when the stream to the worker fails.
pub open spec fn error_emission_of(reason: Seq<char>) -> EmissionModel {
    EmissionModel { topic: "sidecar:error"@, payload: JsonValue::String(reason) }
}

/// What goes out when the worker has exited: the exit code, or null where
/// there is none.
pub open spec fn termination_emission_of(code: Option<i32>) -> EmissionModel {
    EmissionModel {
        topic: "sidecar:terminated"@,
        payload: match code {
            Some(n) => JsonValue::Integer(n as int),
            None => JsonValue::Null,
        },
    }
}

/// The notices for what a reader got: one for each line of the output
/// stream, the diagnostic text as it came, the stream's failure, or the
/// termination with its exit code.
pub open spec fn notices_of(output: WorkerOutput) -> Seq<NoticeModel> {
    match output {
        WorkerOutput::Stdout(chunk) => line_notices(lines_of(chunk@)),
        WorkerOutput::Stderr(text) => seq![NoticeModel::Diagnostic(text@)],
        WorkerOutput::Error(reason) => seq![NoticeModel::Emit(error_emission_of(reason@))],
        WorkerOutput::Terminated { code } => seq![NoticeModel::Emit(termination_emission_of(code))],
    }
}

/// Builds what goes out when the stream to the worker fails.
pub fn error_emission(reason: &str) -> (r: Emission)
    ensures
        r@ == error_emission_of(reason@),
{
    Emission { topic: String::from_str("sidecar:error"), payload: value_from_string(reason) }
}

/// Builds what goes out when the worker has exited.
pub fn termination_emission(code: Option<i32>) -> (r: Emission)
    ensures
        r@ == termination_emission_of(code),
{
    let payload = match code {
        Some(n) => value_from_i32(n),
        None => value_null(),
    };
    Emission { topic: String::from_str("sidecar:terminated"), payload }
}

/// Turns what a reader got into the notices to hand on, in order.
pub fn handle_worker_output(output: WorkerOutput) -> (out: Vec<Notice>)
    ensures
        notice_models(out@) == notices_of(output),
{
    let mut out: Vec<Notice> = Vec::new();
    match output {
        WorkerOutput::Stdout(chunk) => {
            let lines = split_lines(chunk.as_str());
            let mut i: usize = 0;
            while i < lines.len()
                invariant
                    i <= lines.len(),
                    out@.len() == i,
                    forall|k: int| 0 <= k < i ==> (#[trigger] out@[k])@ == line_notice(lines@[k]@),
                decreases lines.len() - i,
            {
                match process_line(lines[i].as_str()) {
                    Ok(emission) => {
                        out.push(Notice::Emit(emission));
                    },
                    Err(reason) => {
                        out.push(Notice::Dropped(reason));
                    },
                }
                i = i + 1;
            }
            assert(notice_models(out@) =~= line_notices(texts_of(lines@)));
        },
        WorkerOutput::Stderr(text) => {
            out.push(Notice::Diagnostic(text));
            assert(notice_models(out@) =~= seq![NoticeModel::Diagnostic(text@)]);
        },
        WorkerOutput::Error(reason) => {
            let emission = error_emission(reason.as_str());
            out.push(Notice::Emit(emission));
            assert(notice_models(out@) =~= seq![NoticeModel::Emit(error_emission_of(reason@))]);
        },
        WorkerOutput::Terminated { code } => {
            let emission = termination_emission(code);
            out.push(Notice::Emit(emission));
            assert(notice_models(out@) =~= seq![NoticeModel::Emit(termination_emission_of(code))]);
        },
    }
    out
}

/// The emissions among a run of notices, in order.
pub open spec fn emissions_among(notices: Seq<NoticeModel>) -> Seq<EmissionModel>
    decreases notices.len(),
{
    if notices.len() == 0 {
        Seq::empty()
    } else {
        let earlier = emissions_among(notices.drop_last());
        match notices.last() {
            NoticeModel::Emit(emission) => earlier.push(emission),
            _ => earlier,
        }
    }
}

/// The emissions among the notices for a run of lines are the emissions of
/// those lines: what is dropped is reported, and goes nowhere else.
pub proof fn lemma_notices_hold_the_emissions(lines: Seq<Seq<char>>)
    ensures
        emissions_among(line_notices(lines)) == emissions_of(lines),
    decreases lines.len(),
{
    if lines.len() > 0 {
        lemma_notices_hold_the_emissions(lines.drop_last());
        assert(line_notices(lines).drop_last() =~= line_notices(lines.drop_last()));
        assert(line_notices(lines).last() == line_notice(lines.last()));
    }
}

} // verus!
