//! The three threads together: the editor, the recorder and the
//! speech-to-text thread, joined by first-in first-out channels. Each thread
//! steps by the library's own transitions; the laws here hold of every run.
//!
//! A step of a thread is atomic here: in particular the audio callback checks
//! that the recorder forwards chunks and sends its chunk in one step.

use crate::easy_mark_editor::{
    dictate_clicked_in, exit_decided, exit_requested, initial_state, recording_phase_of, with_speech,
    EditorState, RecordingPhase, SavePrompt,
};
use crate::recorder::{recorder_step, AudioMessage, GuiOrders, RecorderAction};
use crate::stter::{stt_step, DecodedSpeech, SttAction};
use vstd::prelude::*;

verus! {

/// The number of elements of `s` that `f` holds of.
pub open spec fn count_matching<A>(s: Seq<A>, f: spec_fn(A) -> bool) -> nat
    decreases s.len(),
{
    if s.len() == 0 {
        0
    } else {
        count_matching(s.drop_last(), f) + if f(s.last()) { 1nat } else { 0nat }
    }
}

pub proof fn lemma_count_push<A>(s: Seq<A>, x: A, f: spec_fn(A) -> bool)
    ensures
        count_matching(s.push(x), f) == count_matching(s, f) + if f(x) { 1nat } else { 0nat },
{
    assert(s.push(x).drop_last() =~= s);
}

pub proof fn lemma_count_drop_first<A>(s: Seq<A>, f: spec_fn(A) -> bool)
    requires
        s.len() > 0,
    ensures
        count_matching(s, f) == (if f(s[0]) { 1nat } else { 0nat }) + count_matching(s.drop_first(), f),
    decreases s.len(),
{
    if s.len() == 1 {
        assert(s.drop_first().len() == 0);
        assert(s.drop_last().len() == 0);
        assert(s.last() == s[0]);
        assert(count_matching(s.drop_last(), f) == 0);
        assert(count_matching(s.drop_first(), f) == 0);
    } else {
        lemma_count_drop_first(s.drop_last(), f);
        assert(s.drop_last().drop_first() =~= s.drop_first().drop_last());
        assert(s.drop_first().last() == s.last());
        assert(s.drop_last()[0] == s[0]);
        assert(count_matching(s, f) == count_matching(s.drop_last(), f) + if f(s.last()) {
            1nat
        } else {
            0nat
        });
        assert(count_matching(s.drop_first(), f) == count_matching(s.drop_first().drop_last(), f) + if f(
            s.drop_first().last(),
        ) {
            1nat
        } else {
            0nat
        });
    }
}

pub proof fn lemma_count_zero<A>(s: Seq<A>, f: spec_fn(A) -> bool, i: int)
    requires
        count_matching(s, f) == 0,
        0 <= i < s.len(),
    ensures
        !f(s[i]),
    decreases s.len(),
{
    if i < s.len() - 1 {
        lemma_count_zero(s.drop_last(), f, i);
    }
}

/// A `Stop` order.
pub open spec fn is_stop_order() -> spec_fn(GuiOrders) -> bool {
    |o: GuiOrders| o == GuiOrders::Stop
}

/// An end-of-recording message.
pub open spec fn is_end_of() -> spec_fn(AudioMessage) -> bool {
    |m: AudioMessage| m is EndOf
}

/// A final result.
pub open spec fn is_final() -> spec_fn(DecodedSpeech) -> bool {
    |d: DecodedSpeech| d is Final
}

/// Where the editor stands in the sequence of orders it sends.
pub enum OrderPhase {
    /// No recording is open: a `Record` or the `Exit` may come.
    Ready,
    /// A recording is open: a `Stop` may come.
    Open,
    /// The recorder was told to exit: nothing more may come.
    Exited,
}

/// The phase after an order, or `None` where the order may not come.
pub open spec fn next_order_phase(p: OrderPhase, o: GuiOrders) -> Option<OrderPhase> {
    match (p, o) {
        (OrderPhase::Ready, GuiOrders::Record) => Some(OrderPhase::Open),
        (OrderPhase::Open, GuiOrders::Stop) => Some(OrderPhase::Ready),
        (OrderPhase::Ready, GuiOrders::Exit) => Some(OrderPhase::Exited),
        _ => None,
    }
}

/// The phase after a sequence of orders, or `None` where it breaks the pattern
/// `(Record Stop)* Record? Exit?` with `Exit` only after a `Stop` or first.
pub open spec fn order_phase(orders: Seq<GuiOrders>) -> Option<OrderPhase>
    decreases orders.len(),
{
    if orders.len() == 0 {
        Some(OrderPhase::Ready)
    } else {
        match order_phase(orders.drop_last()) {
            Some(p) => next_order_phase(p, orders.last()),
            None => None,
        }
    }
}

/// What the recorder did, in order.
pub enum RecorderEvent {
    Received(GuiOrders),
    SentAudio,
    SentEndOf,
    SentExit,
}

/// The recorder's log read as (forwarding, ended), or `None` where it holds an
/// audio chunk sent while not forwarding, or anything after `Exit` was sent.
pub open spec fn log_phase(log: Seq<RecorderEvent>) -> Option<(bool, bool)>
    decreases log.len(),
{
    if log.len() == 0 {
        Some((false, false))
    } else {
        match log_phase(log.drop_last()) {
            Some((open, done)) => if done {
                None
            } else {
                match log.last() {
                    RecorderEvent::Received(GuiOrders::Record) => Some((true, false)),
                    RecorderEvent::Received(GuiOrders::Stop) => Some((false, false)),
                    RecorderEvent::Received(GuiOrders::Exit) => Some((open, false)),
                    RecorderEvent::SentAudio => if open { Some((open, false)) } else { None },
                    RecorderEvent::SentEndOf => Some((open, false)),
                    RecorderEvent::SentExit => Some((open, true)),
                }
            },
            None => None,
        }
    }
}

/// The orders in the recorder's log.
pub open spec fn received_orders(log: Seq<RecorderEvent>) -> Seq<GuiOrders>
    decreases log.len(),
{
    if log.len() == 0 {
        Seq::empty()
    } else {
        match log.last() {
            RecorderEvent::Received(o) => received_orders(log.drop_last()).push(o),
            _ => received_orders(log.drop_last()),
        }
    }
}

/// The messages other than audio in the recorder's log.
pub open spec fn sent_signals(log: Seq<RecorderEvent>) -> Seq<RecorderEvent>
    decreases log.len(),
{
    if log.len() == 0 {
        Seq::empty()
    } else {
        match log.last() {
            RecorderEvent::SentEndOf => sent_signals(log.drop_last()).push(RecorderEvent::SentEndOf),
            RecorderEvent::SentExit => sent_signals(log.drop_last()).push(RecorderEvent::SentExit),
            _ => sent_signals(log.drop_last()),
        }
    }
}

/// The messages that a sequence of orders calls for: none for `Record`,
/// `EndOf` for `Stop`, `Exit` for `Exit`.
pub open spec fn signals_for(orders: Seq<GuiOrders>) -> Seq<RecorderEvent>
    decreases orders.len(),
{
    if orders.len() == 0 {
        Seq::empty()
    } else {
        match orders.last() {
            GuiOrders::Record => signals_for(orders.drop_last()),
            GuiOrders::Stop => signals_for(orders.drop_last()).push(RecorderEvent::SentEndOf),
            GuiOrders::Exit => signals_for(orders.drop_last()).push(RecorderEvent::SentExit),
        }
    }
}

/// The three threads and their channels.
pub struct System {
    pub editor: EditorState,
    /// Orders on their way to the recorder.
    pub to_recorder: Seq<GuiOrders>,
    pub sending: bool,
    pub recorder_done: bool,
    /// Messages on their way to the speech-to-text thread.
    pub to_stter: Seq<AudioMessage>,
    pub chunks: nat,
    pub stter_done: bool,
    /// Decoded speech on its way to the editor.
    pub to_editor: Seq<DecodedSpeech>,
    /// Every order the editor has sent.
    pub sent_orders: Seq<GuiOrders>,
    /// Everything the recorder has done.
    pub recorder_log: Seq<RecorderEvent>,
    /// Whether the editor has told the recorder to exit (and closed).
    pub exit_sent: bool,
}

/// A step of one of the threads.
pub enum Step {
    /// The user clicks the dictation button.
    Click,
    /// The editor takes the first decoded speech, while it waits for speech.
    ReceiveSpeech,
    /// The user asks to close the window.
    ExitRequest,
    /// The editor decides whether to close, after the answer to the question whether to save.
    DecideExit(Option<SavePrompt>),
    /// Any other change of the editor (editing, opening, saving, shortcuts),
    /// none of which touches its dictation or closing.
    EditorOther(EditorState),
    /// The recorder takes the first order.
    RecorderReceive,
    /// The audio callback captures a chunk.
    RecorderCapture(AudioMessage),
    /// The speech-to-text thread takes the first message; `out` is what
    /// decoding gave (`None` where it failed).
    StterReceive(Option<DecodedSpeech>),
}

/// The system as it starts.
pub open spec fn initial_system() -> System {
    System {
        editor: initial_state(),
        to_recorder: Seq::empty(),
        sending: false,
        recorder_done: false,
        to_stter: Seq::empty(),
        chunks: 0,
        stter_done: false,
        to_editor: Seq::empty(),
        sent_orders: Seq::empty(),
        recorder_log: Seq::empty(),
        exit_sent: false,
    }
}

/// Whether a step can be taken.
pub open spec fn enabled(s: System, step: Step) -> bool {
    match step {
        Step::Click => !s.exit_sent,
        Step::ReceiveSpeech => !s.exit_sent && s.to_editor.len() > 0 && recording_phase_of(s.editor)
            != RecordingPhase::Idle,
        Step::ExitRequest => !s.exit_sent,
        Step::DecideExit(_) => !s.exit_sent && s.editor.is_exiting,
        Step::EditorOther(e) => !s.exit_sent && e.is_recording == s.editor.is_recording
            && e.is_stopping == s.editor.is_stopping && e.should_exit == s.editor.should_exit,
        Step::RecorderReceive => !s.recorder_done && s.to_recorder.len() > 0,
        Step::RecorderCapture(m) => !s.recorder_done && s.sending && m is Audio,
        Step::StterReceive(_) => !s.stter_done && s.to_stter.len() > 0 && (s.to_stter[0] is Audio
            ==> s.chunks < u32::MAX),
    }
}

/// The editor sends an order, if there is one.
pub open spec fn send_order(s: System, o: Option<GuiOrders>) -> System {
    match o {
        Some(order) => System {
            to_recorder: s.to_recorder.push(order),
            sent_orders: s.sent_orders.push(order),
            ..s
        },
        None => s,
    }
}

/// The system after a step.
pub open spec fn next(s: System, step: Step) -> System {
    match step {
        Step::Click => send_order(System { editor: dictate_clicked_in(s.editor).0, ..s }, dictate_clicked_in(s.editor).1),
        Step::ReceiveSpeech => System {
            editor: with_speech(s.editor, s.to_editor[0]),
            to_editor: s.to_editor.drop_first(),
            ..s
        },
        Step::ExitRequest => System { editor: exit_requested(s.editor), ..s },
        Step::DecideExit(answer) => send_order(
            System {
                editor: exit_decided(s.editor, answer).0,
                exit_sent: exit_decided(s.editor, answer).1 is Some,
                ..s
            },
            exit_decided(s.editor, answer).1,
        ),
        Step::EditorOther(e) => System { editor: e, ..s },
        Step::RecorderReceive => {
            let o = s.to_recorder[0];
            let (sending, action) = recorder_step(s.sending, o);
            let log = s.recorder_log.push(RecorderEvent::Received(o));
            let base = System { to_recorder: s.to_recorder.drop_first(), sending: sending, ..s };
            match action {
                RecorderAction::StartStream => System { recorder_log: log, ..base },
                RecorderAction::SendEndOf => System {
                    to_stter: s.to_stter.push(AudioMessage::EndOf),
                    recorder_log: log.push(RecorderEvent::SentEndOf),
                    ..base
                },
                RecorderAction::SendExit => System {
                    to_stter: s.to_stter.push(AudioMessage::Exit),
                    recorder_log: log.push(RecorderEvent::SentExit),
                    recorder_done: true,
                    ..base
                },
            }
        },
        Step::RecorderCapture(m) => System {
            to_stter: s.to_stter.push(m),
            recorder_log: s.recorder_log.push(RecorderEvent::SentAudio),
            ..s
        },
        Step::StterReceive(out) => {
            let (chunks, action) = stt_step(s.chunks, s.to_stter[0]);
            let base = System { to_stter: s.to_stter.drop_first(), chunks: chunks, ..s };
            match action {
                SttAction::Feed { decode_intermediate } => match out {
                    Some(DecodedSpeech::Intermediate(t)) => if decode_intermediate {
                        System { to_editor: s.to_editor.push(DecodedSpeech::Intermediate(t)), ..base }
                    } else {
                        base
                    },
                    _ => base,
                },
                SttAction::Finish => match out {
                    Some(DecodedSpeech::Final(t)) => System {
                        to_editor: s.to_editor.push(DecodedSpeech::Final(t)),
                        ..base
                    },
                    _ => base,
                },
                SttAction::Exit => System { stter_done: true, ..base },
            }
        },
    }
}

/// The number of stops in flight: `Stop` orders, end-of-recording messages
/// and final results on their way.
pub open spec fn stops_in_flight(s: System) -> nat {
    count_matching(s.to_recorder, is_stop_order()) + count_matching(s.to_stter, is_end_of())
        + count_matching(s.to_editor, is_final())
}

/// What holds in every reachable state.
pub open spec fn inv(s: System) -> bool {
    &&& s.editor.wf()
    &&& stops_in_flight(s) <= if s.editor.is_stopping { 1nat } else { 0nat }
    &&& order_phase(s.sent_orders) is Some
    &&& (order_phase(s.sent_orders) == Some(OrderPhase::Open) <==> s.editor.is_recording && !s.editor.is_stopping)
    &&& (order_phase(s.sent_orders) == Some(OrderPhase::Exited) <==> s.exit_sent)
    &&& (s.editor.should_exit ==> s.exit_sent)
    &&& log_phase(s.recorder_log) == Some((s.sending, s.recorder_done))
    &&& sent_signals(s.recorder_log) == signals_for(received_orders(s.recorder_log))
}

pub proof fn lemma_order_phase_push(orders: Seq<GuiOrders>, o: GuiOrders)
    ensures
        order_phase(orders.push(o)) == match order_phase(orders) {
            Some(p) => next_order_phase(p, o),
            None => None,
        },
{
    assert(orders.push(o).drop_last() =~= orders);
}

pub proof fn lemma_log_push(log: Seq<RecorderEvent>, e: RecorderEvent)
    ensures
        log_phase(log.push(e)) == match log_phase(log) {
            Some((open, done)) => if done {
                None
            } else {
                match e {
                    RecorderEvent::Received(GuiOrders::Record) => Some((true, false)),
                    RecorderEvent::Received(GuiOrders::Stop) => Some((false, false)),
                    RecorderEvent::Received(GuiOrders::Exit) => Some((open, false)),
                    RecorderEvent::SentAudio => if open { Some((open, false)) } else { None },
                    RecorderEvent::SentEndOf => Some((open, false)),
                    RecorderEvent::SentExit => Some((open, true)),
                }
            },
            None => None,
        },
        received_orders(log.push(e)) == match e {
            RecorderEvent::Received(o) => received_orders(log).push(o),
            _ => received_orders(log),
        },
        sent_signals(log.push(e)) == match e {
            RecorderEvent::SentEndOf => sent_signals(log).push(RecorderEvent::SentEndOf),
            RecorderEvent::SentExit => sent_signals(log).push(RecorderEvent::SentExit),
            _ => sent_signals(log),
        },
{
    assert(log.push(e).drop_last() =~= log);
}

pub proof fn lemma_signals_push(orders: Seq<GuiOrders>, o: GuiOrders)
    ensures
        signals_for(orders.push(o)) == match o {
            GuiOrders::Record => signals_for(orders),
            GuiOrders::Stop => signals_for(orders).push(RecorderEvent::SentEndOf),
            GuiOrders::Exit => signals_for(orders).push(RecorderEvent::SentExit),
        },
{
    assert(orders.push(o).drop_last() =~= orders);
}

/// The orders lead to `Exited` only through an `Exit` that ends them.
pub proof fn lemma_exited_ends_with_exit(orders: Seq<GuiOrders>)
    requires
        order_phase(orders) == Some(OrderPhase::Exited),
    ensures
        orders.len() > 0,
        orders.last() == GuiOrders::Exit,
{
}

proof fn lemma_click_keeps_inv(s: System)
    requires
        inv(s),
        enabled(s, Step::Click),
    ensures
        inv(next(s, Step::Click)),
{
    let t = next(s, Step::Click);
    let e = s.editor;
    if e.is_recording && e.is_stopping {
        assert(t == s);
    } else if !e.is_recording {
        lemma_order_phase_push(s.sent_orders, GuiOrders::Record);
        lemma_count_push(s.to_recorder, GuiOrders::Record, is_stop_order());
        assert(stops_in_flight(t) == stops_in_flight(s));
    } else {
        lemma_order_phase_push(s.sent_orders, GuiOrders::Stop);
        lemma_count_push(s.to_recorder, GuiOrders::Stop, is_stop_order());
        assert(stops_in_flight(t) == stops_in_flight(s) + 1);
    }
}

proof fn lemma_receive_speech_keeps_inv(s: System)
    requires
        inv(s),
        enabled(s, Step::ReceiveSpeech),
    ensures
        inv(next(s, Step::ReceiveSpeech)),
        recording_phase_of(s.editor) == RecordingPhase::Recording ==> s.to_editor[0] is Intermediate,
{
    let t = next(s, Step::ReceiveSpeech);
    lemma_count_drop_first(s.to_editor, is_final());
    assert(stops_in_flight(s) == stops_in_flight(t) + if s.to_editor[0] is Final { 1nat } else { 0nat });
}

proof fn lemma_decide_exit_keeps_inv(s: System, answer: Option<SavePrompt>)
    requires
        inv(s),
        enabled(s, Step::DecideExit(answer)),
    ensures
        inv(next(s, Step::DecideExit(answer))),
{
    let t = next(s, Step::DecideExit(answer));
    if exit_decided(s.editor, answer).1 is Some {
        lemma_order_phase_push(s.sent_orders, GuiOrders::Exit);
        lemma_count_push(s.to_recorder, GuiOrders::Exit, is_stop_order());
        assert(stops_in_flight(t) == stops_in_flight(s));
    } else {
        assert(t.sent_orders == s.sent_orders);
    }
}

proof fn lemma_recorder_receive_keeps_inv(s: System)
    requires
        inv(s),
        enabled(s, Step::RecorderReceive),
    ensures
        inv(next(s, Step::RecorderReceive)),
{
    let t = next(s, Step::RecorderReceive);
    let o = s.to_recorder[0];
    let log = s.recorder_log.push(RecorderEvent::Received(o));
    lemma_count_drop_first(s.to_recorder, is_stop_order());
    lemma_log_push(s.recorder_log, RecorderEvent::Received(o));
    lemma_signals_push(received_orders(s.recorder_log), o);
    match o {
        GuiOrders::Record => {
            assert(stops_in_flight(t) == stops_in_flight(s));
        },
        GuiOrders::Stop => {
            lemma_count_push(s.to_stter, AudioMessage::EndOf, is_end_of());
            lemma_log_push(log, RecorderEvent::SentEndOf);
            assert(stops_in_flight(t) == stops_in_flight(s));
        },
        GuiOrders::Exit => {
            lemma_count_push(s.to_stter, AudioMessage::Exit, is_end_of());
            lemma_log_push(log, RecorderEvent::SentExit);
            assert(stops_in_flight(t) == stops_in_flight(s));
        },
    }
}

proof fn lemma_capture_keeps_inv(s: System, m: AudioMessage)
    requires
        inv(s),
        enabled(s, Step::RecorderCapture(m)),
    ensures
        inv(next(s, Step::RecorderCapture(m))),
{
    let t = next(s, Step::RecorderCapture(m));
    lemma_count_push(s.to_stter, m, is_end_of());
    lemma_log_push(s.recorder_log, RecorderEvent::SentAudio);
    assert(stops_in_flight(t) == stops_in_flight(s));
}

proof fn lemma_stter_receive_keeps_inv(s: System, out: Option<DecodedSpeech>)
    requires
        inv(s),
        enabled(s, Step::StterReceive(out)),
    ensures
        inv(next(s, Step::StterReceive(out))),
{
    let t = next(s, Step::StterReceive(out));
    let m = s.to_stter[0];
    lemma_count_drop_first(s.to_stter, is_end_of());
    match out {
        Some(d) => {
            lemma_count_push(s.to_editor, d, is_final());
        },
        None => {},
    }
    assert(stops_in_flight(t) <= stops_in_flight(s));
}

/// The system starts in a state where the invariant holds.
pub proof fn law_initial_system_inv()
    ensures
        inv(initial_system()),
{
}

/// Every step of every thread keeps the invariant: the editor waits for a
/// final result only while one may still come, and never two; the orders it
/// sends follow `(Record Stop)* Record? Exit?` with `Exit` never during a
/// dictation; it agrees to close only after telling the recorder to exit; the
/// recorder forwards audio only between a `Record` and the next `Stop`, sends
/// nothing after `Exit`, and answers each `Stop` with `EndOf` and `Exit` with
/// `Exit`, in order.
pub proof fn law_steps_keep_inv(s: System, step: Step)
    requires
        inv(s),
        enabled(s, step),
    ensures
        inv(next(s, step)),
{
    match step {
        Step::Click => lemma_click_keeps_inv(s),
        Step::ReceiveSpeech => lemma_receive_speech_keeps_inv(s),
        Step::ExitRequest => {},
        Step::DecideExit(answer) => lemma_decide_exit_keeps_inv(s, answer),
        Step::EditorOther(e) => {},
        Step::RecorderReceive => lemma_recorder_receive_keeps_inv(s),
        Step::RecorderCapture(m) => lemma_capture_keeps_inv(s, m),
        Step::StterReceive(out) => lemma_stter_receive_keeps_inv(s, out),
    }
}

/// While the user is still speaking, no final result is on its way to the
/// editor: what it takes then is always an intermediate result.
pub proof fn law_no_final_while_recording(s: System, i: int)
    requires
        inv(s),
        recording_phase_of(s.editor) == RecordingPhase::Recording,
        0 <= i < s.to_editor.len(),
    ensures
        s.to_editor[i] is Intermediate,
{
    lemma_count_zero(s.to_editor, is_final(), i);
}

/// A `Record` goes out only once the final result of the last dictation has
/// arrived, with no stop in flight; `Exit` goes out only when no dictation is
/// going on, and then the editor has agreed to close.
pub proof fn law_orders_wait_for_dictation(s: System, step: Step)
    requires
        inv(s),
        enabled(s, step),
    ensures
        step is Click && dictate_clicked_in(s.editor).1 == Some(GuiOrders::Record) ==> !s.editor.is_recording
            && !s.editor.is_stopping && stops_in_flight(s) == 0,
        step is Click && dictate_clicked_in(s.editor).1 == Some(GuiOrders::Stop) ==> s.editor.is_recording
            && !s.editor.is_stopping,
        (step matches Step::DecideExit(answer) && exit_decided(s.editor, answer).1 is Some) ==> !s.editor.is_recording
            && !s.editor.is_stopping && next(s, step).editor.should_exit,
{
}

/// The system after the editor has taken `n` pieces of decoded speech.
pub open spec fn receive_speech_n(s: System, n: nat) -> System
    decreases n,
{
    if n == 0 {
        s
    } else {
        receive_speech_n(next(s, Step::ReceiveSpeech), (n - 1) as nat)
    }
}

/// A stopped dictation ends: once the final result for the `Stop` is on its
/// way to the editor, after intermediate results only, the editor takes them
/// one by one (each such step can be taken) and, with the final one, is idle
/// again: the dictation button is offered and quitting is possible.
pub proof fn law_final_result_ends_stopping(s: System, i: int)
    requires
        inv(s),
        !s.exit_sent,
        s.editor.is_stopping,
        0 <= i < s.to_editor.len(),
        s.to_editor[i] is Final,
        forall|j: int| 0 <= j < i ==> s.to_editor[j] is Intermediate,
    ensures
        forall|k: nat| k <= i ==> #[trigger] enabled(receive_speech_n(s, k), Step::ReceiveSpeech),
        inv(receive_speech_n(s, (i + 1) as nat)),
        !receive_speech_n(s, (i + 1) as nat).editor.is_recording,
        !receive_speech_n(s, (i + 1) as nat).editor.is_stopping,
    decreases i,
{
    let t = next(s, Step::ReceiveSpeech);
    assert(enabled(s, Step::ReceiveSpeech));
    law_steps_keep_inv(s, Step::ReceiveSpeech);
    assert(receive_speech_n(s, 0) == s);
    if i == 0 {
        assert(receive_speech_n(t, 0) == t);
        assert(receive_speech_n(s, 1) == t);
        assert forall|k: nat| k <= i implies #[trigger] enabled(receive_speech_n(s, k), Step::ReceiveSpeech) by {
            assert(k == 0);
        }
    } else {
        assert(t.to_editor =~= s.to_editor.drop_first());
        assert(t.editor.is_stopping);
        assert forall|j: int| 0 <= j < i - 1 implies t.to_editor[j] is Intermediate by {
            assert(t.to_editor[j] == s.to_editor[j + 1]);
        }
        law_final_result_ends_stopping(t, i - 1);
        assert(receive_speech_n(s, (i + 1) as nat) == receive_speech_n(t, i as nat));
        assert forall|k: nat| k <= i implies #[trigger] enabled(receive_speech_n(s, k), Step::ReceiveSpeech) by {
            if k > 0 {
                assert(receive_speech_n(s, k) == receive_speech_n(t, (k - 1) as nat));
                assert(enabled(receive_speech_n(t, (k - 1) as nat), Step::ReceiveSpeech));
            }
        }
    }
}

/// The editor agrees to close only after `Exit` went out as its last order;
/// the orders always follow the pattern; the recorder's log is in order.
pub proof fn law_run_properties(s: System)
    requires
        inv(s),
    ensures
        order_phase(s.sent_orders) is Some,
        s.editor.should_exit ==> s.exit_sent && s.sent_orders.len() > 0 && s.sent_orders.last() == GuiOrders::Exit,
        log_phase(s.recorder_log) is Some,
        sent_signals(s.recorder_log) == signals_for(received_orders(s.recorder_log)),
{
    if s.editor.should_exit {
        lemma_exited_ends_with_exit(s.sent_orders);
    }
}

} // verus!
