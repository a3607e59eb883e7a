//! The decisions of the tasks around a page load: the style sheet listener,
//! the script listener, one script download, and the page download itself.
//! Each is a step function from a message received to what to do next; the
//! sending, receiving and spawning are left to the caller.
use vstd::prelude::*;

use crate::messages::{CSSMessage, JSMessage, ProgressMsg, StylesheetProvenance, UrlRef};

verus! {

/// What a listener does with one message: start work for a new request, or
/// stop listening and hand back the results.
#[derive(Debug)]
pub enum ListenerAction<R> {
    Spawn(R),
    Finish,
}

/// The style sheet listener's answer to one message: a new sheet is handed
/// to a sheet parser of its own; the exit message ends the listening.
pub fn css_listener_action(msg: CSSMessage) -> (a: ListenerAction<StylesheetProvenance>)
    ensures
        match msg {
            CSSMessage::CSSTaskNewFile(p) => a == ListenerAction::Spawn(p),
            CSSMessage::CSSTaskExit => a == ListenerAction::<StylesheetProvenance>::Finish,
        },
{
    match msg {
        CSSMessage::CSSTaskNewFile(p) => ListenerAction::Spawn(p),
        CSSMessage::CSSTaskExit => ListenerAction::Finish,
    }
}

/// The script listener's answer to one message: a new script is downloaded
/// by a task of its own; the exit message ends the listening.
pub fn js_listener_action(msg: JSMessage) -> (a: ListenerAction<UrlRef>)
    ensures
        match msg {
            JSMessage::JSTaskNewFile(u) => a == ListenerAction::Spawn(u),
            JSMessage::JSTaskExit => a == ListenerAction::<UrlRef>::Finish,
        },
{
    match msg {
        JSMessage::JSTaskNewFile(u) => ListenerAction::Spawn(u),
        JSMessage::JSTaskExit => ListenerAction::Finish,
    }
}

/// The results that a listener waits for, in the order the requests came in.
pub struct PendingResults<P> {
    waiting: Vec<P>,
    closed: bool,
}

impl<P> PendingResults<P> {
    /// The results waited for, oldest request first.
    pub closed spec fn waiting(&self) -> Seq<P> {
        self.waiting@
    }

    /// Whether the listener has stopped taking requests.
    pub closed spec fn is_closed(&self) -> bool {
        self.closed
    }

    /// Nothing waited for, and open for requests.
    pub fn new() -> (r: PendingResults<P>)
        ensures
            r.waiting().len() == 0,
            !r.is_closed(),
    {
        PendingResults { waiting: Vec::new(), closed: false }
    }

    /// Waits for one more result, after all those already waited for.
    pub fn push(&mut self, result: P)
        requires
            !old(self).is_closed(),
        ensures
            final(self).waiting() == old(self).waiting().push(result),
            !final(self).is_closed(),
    {
        self.waiting.push(result);
    }

    /// Stops taking requests and hands back everything waited for, in the
    /// order the requests came in.
    pub fn close(&mut self) -> (r: Vec<P>)
        requires
            !old(self).is_closed(),
        ensures
            r@ == old(self).waiting(),
            final(self).waiting().len() == 0,
            final(self).is_closed(),
    {
        let mut out: Vec<P> = Vec::new();
        std::mem::swap(&mut out, &mut self.waiting);
        self.closed = true;
        out
    }
}

/// A whole listener run: the handles of the results are waited for in the
/// order the requests came in, and handed back in that same order once the
/// listener stops, whatever order the work behind them finishes in.
pub fn await_in_request_order<P>(handles: Vec<P>) -> (r: Vec<P>)
    ensures
        r@ == handles@,
{
    let mut pending: PendingResults<P> = PendingResults::new();
    let ghost all = handles@;
    for h in it: handles.into_iter()
        invariant
            it.seq() == all,
            pending.waiting() == all.take(it.index() as int),
            !pending.is_closed(),
    {
        proof {
            assert(all.take(it.index() + 1) =~= all.take(it.index() as int).push(h));
        }
        pending.push(h);
    }
    proof {
        assert(all.take(all.len() as int) =~= all);
    }
    pending.close()
}

/// What the style sheet listener sends back once it has every sheet: each
/// sheet in the order its request came in, then the end marker `None`.
pub open spec fn collated<S>(sheets: Seq<S>) -> Seq<Option<S>> {
    sheets.map_values(|s: S| Some(s)).push(None)
}

/// Every sheet is sent, each in its place, and the end marker comes last.
pub proof fn lemma_collated_sends_every_sheet<S>(sheets: Seq<S>)
    ensures
        collated(sheets).len() == sheets.len() + 1,
        forall|i: int| 0 <= i < sheets.len() ==> collated(sheets)[i] == Some(#[trigger] sheets[i]),
        collated(sheets)[sheets.len() as int] is None,
{
}

/// Turns the sheets, in the order their requests came in, into the messages
/// that send them back: one `Some` per sheet in that order, then `None`.
pub fn collate_sheets<S>(sheets: Vec<S>) -> (out: Vec<Option<S>>)
    ensures
        out@ == collated(sheets@),
        out@.len() == sheets@.len() + 1,
        forall|i: int| 0 <= i < sheets@.len() ==> out@[i] == Some(#[trigger] sheets@[i]),
        out@[sheets@.len() as int] is None,
{
    let mut out: Vec<Option<S>> = Vec::new();
    let ghost all = sheets@;
    for s in it: sheets.into_iter()
        invariant
            it.seq() == all,
            out@ == all.take(it.index() as int).map_values(|s: S| Some(s)),
    {
        proof {
            assert(all.take(it.index() + 1) =~= all.take(it.index() as int).push(s));
        }
        out.push(Some(s));
        proof {
            assert(out@ =~= all.take(it.index() + 1).map_values(|s: S| Some(s)));
        }
    }
    proof {
        assert(all.take(all.len() as int) =~= all);
    }
    out.push(None);
    proof {
        lemma_collated_sends_every_sheet(all);
    }
    out
}

/// What to do after one message of a script download.
#[derive(Debug)]
pub enum ScriptLoadAction {
    /// Wait for the next message.
    Continue,
    /// The download is complete: send this script text.
    Deliver(Vec<u8>),
    /// The download failed: report it, and keep waiting.
    ReportError,
}

/// One script download: the bytes received so far.
pub struct ScriptLoad {
    buf: Vec<u8>,
    done: bool,
}

impl ScriptLoad {
    /// The bytes received so far, in order.
    pub closed spec fn received(&self) -> Seq<u8> {
        self.buf@
    }

    /// Whether the script has been delivered.
    pub closed spec fn is_done(&self) -> bool {
        self.done
    }

    /// A download that has received nothing.
    pub fn new() -> (r: ScriptLoad)
        ensures
            r.received().len() == 0,
            !r.is_done(),
    {
        ScriptLoad { buf: Vec::new(), done: false }
    }

    /// Takes one message of the download: a chunk is added after what came
    /// before; a successful end delivers all the bytes received, in order; a
    /// failed end is reported and changes nothing.
    pub fn on_progress(&mut self, msg: ProgressMsg) -> (a: ScriptLoadAction)
        requires
            !old(self).is_done(),
        ensures
            match msg {
                ProgressMsg::Payload(data) => a is Continue && final(self).received() == old(
                    self,
                ).received() + data@ && !final(self).is_done(),
                ProgressMsg::Done(Ok(())) => a matches ScriptLoadAction::Deliver(script) && script@
                    == old(self).received() && final(self).is_done(),
                ProgressMsg::Done(Err(())) => a is ReportError && final(self).received() == old(
                    self,
                ).received() && !final(self).is_done(),
            },
    {
        match msg {
            ProgressMsg::Payload(data) => {
                let mut data = data;
                self.buf.append(&mut data);
                ScriptLoadAction::Continue
            },
            ProgressMsg::Done(Ok(())) => {
                let mut script: Vec<u8> = Vec::new();
                std::mem::swap(&mut script, &mut self.buf);
                self.done = true;
                ScriptLoadAction::Deliver(script)
            },
            ProgressMsg::Done(Err(())) => ScriptLoadAction::ReportError,
        }
    }
}

/// What to do after one message of the page download.
#[derive(Debug)]
pub enum PageAction {
    /// Hand this chunk of the page to the HTML parser.
    ParseChunk(Vec<u8>),
    /// The page is all read: send these to the style sheet listener and to
    /// the script listener.
    Finish(CSSMessage, JSMessage),
}

/// The page download: whether it has ended.
pub struct PageLoad {
    finished: bool,
}

impl PageLoad {
    /// Whether the download has ended.
    pub closed spec fn is_finished(&self) -> bool {
        self.finished
    }

    /// A download that has not ended.
    pub fn new() -> (r: PageLoad)
        ensures
            !r.is_finished(),
    {
        PageLoad { finished: false }
    }

    /// Takes one message of the page download: a chunk goes to the parser as
    /// it came; the end, whatever its outcome, tells both listeners to stop.
    pub fn on_progress(&mut self, msg: ProgressMsg) -> (a: PageAction)
        requires
            !old(self).is_finished(),
        ensures
            match msg {
                ProgressMsg::Payload(data) => a == PageAction::ParseChunk(data)
                    && !final(self).is_finished(),
                ProgressMsg::Done(_) => a == PageAction::Finish(
                    CSSMessage::CSSTaskExit,
                    JSMessage::JSTaskExit,
                ) && final(self).is_finished(),
            },
    {
        match msg {
            ProgressMsg::Payload(data) => PageAction::ParseChunk(data),
            ProgressMsg::Done(_) => {
                self.finished = true;
                PageAction::Finish(CSSMessage::CSSTaskExit, JSMessage::JSTaskExit)
            },
        }
    }
}

} // verus!
