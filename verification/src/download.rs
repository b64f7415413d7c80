//! Progress messages of the background downloads, and how a batch of them is read.
use vstd::prelude::*;

verus! {

/// A message from a background download to the interface.
#[derive(Debug)]
pub enum DownloadMsg {
    /// Bytes downloaded so far, and the total when the server told it.
    Progress(u64, Option<u64>),
    /// A new description of the current step.
    StepLabel(String),
    /// Everything was downloaded.
    Done,
    /// The download failed.
    Error(String),
}

/// The last message of a batch: the one the model download acts on.
pub fn last_message(msgs: Vec<DownloadMsg>) -> (r: Option<DownloadMsg>)
    ensures
        r == (if msgs@.len() == 0 {
            None
        } else {
            Some(msgs@.last())
        }),
{
    let mut msgs = msgs;
    msgs.pop()
}

/// The last progress report in `s`.
pub open spec fn last_progress(s: Seq<DownloadMsg>) -> Option<(u64, Option<u64>)>
    decreases s.len(),
{
    if s.len() == 0 {
        None
    } else {
        match s.last() {
            DownloadMsg::Progress(d, t) => Some((d, t)),
            _ => last_progress(s.drop_last()),
        }
    }
}

/// The last step description in `s`.
pub open spec fn last_label(s: Seq<DownloadMsg>) -> Option<Seq<char>>
    decreases s.len(),
{
    if s.len() == 0 {
        None
    } else {
        match s.last() {
            DownloadMsg::StepLabel(l) => Some(l@),
            _ => last_label(s.drop_last()),
        }
    }
}

/// How the download ended, by the last `Done` or `Error` in `s`.
pub open spec fn last_outcome(s: Seq<DownloadMsg>) -> Option<Result<(), Seq<char>>>
    decreases s.len(),
{
    if s.len() == 0 {
        None
    } else {
        match s.last() {
            DownloadMsg::Done => Some(Ok(())),
            DownloadMsg::Error(e) => Some(Err(e@)),
            _ => last_outcome(s.drop_last()),
        }
    }
}

/// What a batch of messages from the voice download says.
pub struct DownloadSummary {
    /// The latest progress report.
    pub progress: Option<(u64, Option<u64>)>,
    /// The latest step description.
    pub label: Option<String>,
    /// How the download ended, if it did.
    pub outcome: Option<Result<(), String>>,
}

/// The view of an optional string.
pub open spec fn label_view(o: Option<String>) -> Option<Seq<char>> {
    match o {
        Some(s) => Some(s@),
        None => None,
    }
}

/// The view of an outcome.
pub open spec fn outcome_view(o: Option<Result<(), String>>) -> Option<Result<(), Seq<char>>> {
    match o {
        Some(Ok(())) => Some(Ok(())),
        Some(Err(e)) => Some(Err(e@)),
        None => None,
    }
}

/// Reads a batch of messages from the voice download: the latest progress, the latest step
/// description and the latest end (done or failed), each independently of the others.
pub fn summarize(msgs: &Vec<DownloadMsg>) -> (r: DownloadSummary)
    ensures
        r.progress == last_progress(msgs@),
        label_view(r.label) == last_label(msgs@),
        outcome_view(r.outcome) == last_outcome(msgs@),
{
    let mut progress: Option<(u64, Option<u64>)> = None;
    let mut label: Option<String> = None;
    let mut outcome: Option<Result<(), String>> = None;
    let n = msgs.len();
    let mut i: usize = 0;
    while i < n
        invariant
            n == msgs@.len(),
            i <= n,
            progress == last_progress(msgs@.take(i as int)),
            label_view(label) == last_label(msgs@.take(i as int)),
            outcome_view(outcome) == last_outcome(msgs@.take(i as int)),
        decreases n - i,
    {
        assert(msgs@.take(i + 1).drop_last() =~= msgs@.take(i as int));
        assert(msgs@.take(i + 1).last() == msgs@[i as int]);
        match &msgs[i] {
            DownloadMsg::Progress(d, t) => {
                progress = Some((*d, *t));
            },
            DownloadMsg::StepLabel(l) => {
                label = Some(l.clone());
            },
            DownloadMsg::Done => {
                outcome = Some(Ok(()));
            },
            DownloadMsg::Error(e) => {
                outcome = Some(Err(e.clone()));
            },
        }
        i = i + 1;
    }
    assert(msgs@.take(n as int) =~= msgs@);
    DownloadSummary { progress, label, outcome }
}

} // verus!
