use crate::data_model::{SlicedVoiceData, VoiceData};
use crate::fixed_deque::{pushed, FixedLengthQueue};
use vstd::prelude::*;

verus! {

/// More than this many clips of speech must have been gathered for an
/// utterance to be handed on when speech ends.
pub const MIN_CLIPS: usize = 3;

/// Where the detector stands in a stream.
#[derive(Debug, Clone, Copy, PartialEq, Eq, Structural)]
pub enum SpeakingStates {
    /// No speech: clips go to the history ring only.
    Idle,
    /// Speech: clips are gathered.
    Active,
    /// Speech may be ending: clips are still gathered until enough misses.
    InActive,
}

/// What the caller has to do after a clip was processed.
pub enum VadSignal<T> {
    /// Nothing.
    Quiet,
    /// Speech started: playback elsewhere should pause.
    Pause,
    /// Speech ended; the utterance, when enough clips were gathered.
    Resume(Option<SlicedVoiceData<T>>),
}

/// The state of a `StateMachine`, as plain values.
pub struct MachineView<T> {
    pub state: SpeakingStates,
    pub hit_count: nat,
    pub miss_count: nat,
    pub required_hits: nat,
    pub required_misses: nat,
    /// How many clips the history ring keeps.
    pub pre_capacity: nat,
    /// Smoothed probabilities of the gathered clips.
    pub probs: Seq<T>,
    /// Smoothed loudness of the gathered clips.
    pub dbs: Seq<T>,
    /// The gathered audio, in order.
    pub audio: Seq<T>,
    /// The time stamps of the gathered clips, in order.
    pub times: Seq<String>,
    /// The history ring of clips seen while idle, newest first.
    pub pre_chunks: Seq<Vec<T>>,
    /// The time stamps of the history ring, newest first.
    pub pre_times: Seq<String>,
}

/// The audio of `chunks` (newest first) in the order it was heard.
pub open spec fn oldest_first_audio<T>(chunks: Seq<Vec<T>>) -> Seq<T>
    decreases chunks.len(),
{
    if chunks.len() == 0 {
        Seq::empty()
    } else {
        chunks.last()@ + oldest_first_audio(chunks.drop_last())
    }
}

/// The properties every reachable state has.
pub open spec fn inv<T>(m: MachineView<T>) -> bool {
    &&& m.pre_capacity > 0
    &&& m.pre_chunks.len() <= m.pre_capacity
    &&& m.pre_times.len() <= m.pre_capacity
    &&& (m.hit_count == 0 || m.hit_count < m.required_hits)
    &&& (m.miss_count == 0 || m.miss_count < m.required_misses)
    &&& (m.state is Active ==> m.hit_count == 0)
    &&& (m.state is Idle ==> m.miss_count == 0)
    &&& m.probs.len() == m.dbs.len()
    &&& m.probs.len() == m.times.len()
    &&& (!(m.state is Idle) ==> m.pre_times.len() > 0)
}

/// The state a machine starts in.
pub open spec fn initial_view<T>(
    required_hits: nat,
    required_misses: nat,
    pre_capacity: nat,
) -> MachineView<T> {
    MachineView {
        state: SpeakingStates::Idle,
        hit_count: 0,
        miss_count: 0,
        required_hits,
        required_misses,
        pre_capacity,
        probs: Seq::empty(),
        dbs: Seq::empty(),
        audio: Seq::empty(),
        times: Seq::empty(),
        pre_chunks: Seq::empty(),
        pre_times: Seq::empty(),
    }
}

/// `m` with one clip gathered.
pub open spec fn gathered<T>(m: MachineView<T>, prob: T, db: T, chunk: Vec<T>, ts: String) -> MachineView<T> {
    MachineView {
        probs: m.probs.push(prob),
        dbs: m.dbs.push(db),
        audio: m.audio + chunk@,
        times: m.times.push(ts),
        ..m
    }
}

/// A clip while idle: it enters the history ring; enough hits in a row start speech.
pub open spec fn idle_next<T>(m: MachineView<T>, hit: bool, chunk: Vec<T>, ts: String) -> MachineView<T> {
    let m1 = MachineView {
        pre_chunks: pushed(m.pre_chunks, m.pre_capacity, chunk),
        pre_times: pushed(m.pre_times, m.pre_capacity, ts),
        ..m
    };
    if hit {
        if m.hit_count + 1 >= m.required_hits {
            MachineView { state: SpeakingStates::Active, hit_count: 0, ..m1 }
        } else {
            MachineView { hit_count: m.hit_count + 1, ..m1 }
        }
    } else {
        MachineView { hit_count: 0, ..m1 }
    }
}

/// A clip during speech: it is gathered; enough misses in a row make speech uncertain.
pub open spec fn active_next<T>(
    m: MachineView<T>,
    hit: bool,
    prob: T,
    db: T,
    chunk: Vec<T>,
    ts: String,
) -> MachineView<T> {
    let m1 = gathered(m, prob, db, chunk, ts);
    if hit {
        MachineView { miss_count: 0, ..m1 }
    } else if m.miss_count + 1 >= m.required_misses {
        MachineView { state: SpeakingStates::InActive, miss_count: 0, ..m1 }
    } else {
        MachineView { miss_count: m.miss_count + 1, ..m1 }
    }
}

/// A clip while speech may be ending: it is gathered; enough hits in a row
/// resume speech, enough misses in a row end it. When speech ends the
/// history time stamps are dropped, and when more than `MIN_CLIPS` clips
/// were gathered everything gathered is handed on and dropped as well.
pub open spec fn inactive_next<T>(
    m: MachineView<T>,
    hit: bool,
    prob: T,
    db: T,
    chunk: Vec<T>,
    ts: String,
) -> MachineView<T> {
    let m1 = gathered(m, prob, db, chunk, ts);
    if hit {
        if m.hit_count + 1 >= m.required_hits {
            MachineView { state: SpeakingStates::Active, hit_count: 0, miss_count: 0, ..m1 }
        } else {
            MachineView { hit_count: m.hit_count + 1, miss_count: 0, ..m1 }
        }
    } else if m.miss_count + 1 >= m.required_misses {
        if m1.probs.len() > MIN_CLIPS {
            MachineView {
                state: SpeakingStates::Idle,
                hit_count: 0,
                miss_count: 0,
                probs: Seq::empty(),
                dbs: Seq::empty(),
                audio: Seq::empty(),
                times: Seq::empty(),
                pre_chunks: Seq::empty(),
                pre_times: Seq::empty(),
                ..m1
            }
        } else {
            MachineView {
                state: SpeakingStates::Idle,
                hit_count: 0,
                miss_count: 0,
                pre_times: Seq::empty(),
                ..m1
            }
        }
    } else {
        MachineView { hit_count: 0, miss_count: m.miss_count + 1, ..m1 }
    }
}

/// The state after one clip with audio `chunk`, smoothed probability `prob`
/// and loudness `db`, where `hit` tells whether both were over their thresholds.
pub open spec fn next_view<T>(
    m: MachineView<T>,
    hit: bool,
    prob: T,
    db: T,
    chunk: Vec<T>,
    ts: String,
) -> MachineView<T> {
    match m.state {
        SpeakingStates::Idle => idle_next(m, hit, chunk, ts),
        SpeakingStates::Active => active_next(m, hit, prob, db, chunk, ts),
        SpeakingStates::InActive => inactive_next(m, hit, prob, db, chunk, ts),
    }
}

/// This clip starts speech.
pub open spec fn starts_speech<T>(m: MachineView<T>, hit: bool) -> bool {
    m.state is Idle && hit && m.hit_count + 1 >= m.required_hits
}

/// This clip ends speech.
pub open spec fn ends_speech<T>(m: MachineView<T>, hit: bool) -> bool {
    m.state is InActive && !hit && m.miss_count + 1 >= m.required_misses
}

/// `seg` is the utterance handed on when `input` ends speech in state `m`:
/// the history audio oldest first, then all gathered audio up to this clip,
/// from the oldest history time stamp to this clip's, with this message's
/// status, ids and image.
pub open spec fn is_segment<T>(seg: SlicedVoiceData<T>, m: MachineView<T>, chunk: Vec<T>, input: VoiceData<T>) -> bool {
    &&& seg.status == input.status
    &&& seg.device_id == input.device_id
    &&& seg.user_id == input.user_id
    &&& seg.id == input.id
    &&& seg.img == input.img
    &&& seg.audio matches Some(a) && a@ == oldest_first_audio(m.pre_chunks) + m.audio + chunk@
    &&& seg.start_time == m.pre_times.last()
    &&& seg.end_time == input.time_stamp
}

/// A machine starts in a state that has the invariant.
pub proof fn lemma_initial_inv<T>(required_hits: nat, required_misses: nat, pre_capacity: nat)
    requires
        pre_capacity > 0,
    ensures
        inv(initial_view::<T>(required_hits, required_misses, pre_capacity)),
{
}

/// Every clip keeps the invariant, so every state the machine can reach has it.
pub proof fn lemma_step_keeps_inv<T>(
    m: MachineView<T>,
    hit: bool,
    prob: T,
    db: T,
    chunk: Vec<T>,
    ts: String,
)
    requires
        inv(m),
    ensures
        inv(next_view(m, hit, prob, db, chunk, ts)),
{
}

/// Speech starts exactly on the move from idle to active and ends exactly
/// on the move from uncertain back to idle; speech never goes from active
/// straight to idle, and idle never goes straight to uncertain.
pub proof fn lemma_transitions<T>(
    m: MachineView<T>,
    hit: bool,
    prob: T,
    db: T,
    chunk: Vec<T>,
    ts: String,
)
    ensures
        starts_speech(m, hit) <==> (m.state is Idle && next_view(m, hit, prob, db, chunk, ts).state is Active),
        ends_speech(m, hit) <==> (m.state is InActive && next_view(m, hit, prob, db, chunk, ts).state is Idle),
        m.state is Active ==> !(next_view(m, hit, prob, db, chunk, ts).state is Idle),
        m.state is Idle ==> !(next_view(m, hit, prob, db, chunk, ts).state is InActive),
{
}

/// While speech lasts, every clip is gathered: its audio is appended and its
/// time stamp recorded, unless the clip ends speech.
pub proof fn lemma_speech_gathers<T>(
    m: MachineView<T>,
    hit: bool,
    prob: T,
    db: T,
    chunk: Vec<T>,
    ts: String,
)
    requires
        !(m.state is Idle),
        !ends_speech(m, hit),
    ensures
        next_view(m, hit, prob, db, chunk, ts).audio == m.audio + chunk@,
        next_view(m, hit, prob, db, chunk, ts).times == m.times.push(ts),
        next_view(m, hit, prob, db, chunk, ts).pre_chunks == m.pre_chunks,
{
}

/// A chunk put in front of the history (as the newest) is heard last.
proof fn lemma_oldest_first_push_front<T>(x: Vec<T>, p: Seq<Vec<T>>)
    ensures
        oldest_first_audio(seq![x] + p) == oldest_first_audio(p) + x@,
    decreases p.len(),
{
    let q = seq![x] + p;
    if p.len() == 0 {
        assert(q.drop_last() =~= Seq::<Vec<T>>::empty());
        assert(q.last() == x);
        assert(oldest_first_audio(q) == q.last()@ + oldest_first_audio(q.drop_last()));
        assert(oldest_first_audio(q) =~= oldest_first_audio(p) + x@);
    } else {
        assert(q.last() == p.last());
        assert(q.drop_last() =~= seq![x] + p.drop_last());
        lemma_oldest_first_push_front(x, p.drop_last());
        assert(oldest_first_audio(q) == q.last()@ + oldest_first_audio(q.drop_last()));
        assert(oldest_first_audio(p) == p.last()@ + oldest_first_audio(p.drop_last()));
        assert(oldest_first_audio(q) =~= oldest_first_audio(p) + x@);
    }
}

/// The history's audio in hearing order: a clip seen while idle adds its
/// audio at the end; when the history is full, the oldest clip's audio is
/// dropped from the start. The newest clip's audio always ends the history.
pub proof fn lemma_history_order<T>(p: Seq<Vec<T>>, cap: nat, x: Vec<T>)
    ensures
        p.len() >= cap && p.len() > 0 ==> oldest_first_audio(pushed(p, cap, x))
            == oldest_first_audio(p).subrange(p.last()@.len() as int, oldest_first_audio(p).len() as int)
            + x@,
        !(p.len() >= cap && p.len() > 0) ==> oldest_first_audio(pushed(p, cap, x))
            == oldest_first_audio(p) + x@,
        p.len() > 0 ==> oldest_first_audio(p) == p.last()@ + oldest_first_audio(p.drop_last()),
{
    if p.len() >= cap && p.len() > 0 {
        lemma_oldest_first_push_front(x, p.drop_last());
        let a = oldest_first_audio(p);
        assert(a == p.last()@ + oldest_first_audio(p.drop_last()));
        assert(a.subrange(p.last()@.len() as int, a.len() as int) =~= oldest_first_audio(p.drop_last()));
    } else {
        lemma_oldest_first_push_front(x, p);
    }
}

/// When speech ends, the utterance is handed on exactly when more than three
/// clips were gathered; then every gathered buffer and the history are
/// emptied, otherwise the gathered clips and the history audio are kept.
/// Either way the history time stamps are dropped and the machine is idle
/// with no streak under way.
pub proof fn lemma_speech_end<T>(
    m: MachineView<T>,
    prob: T,
    db: T,
    chunk: Vec<T>,
    ts: String,
)
    requires
        inv(m),
        ends_speech(m, false),
    ensures
        ({
            let n = next_view(m, false, prob, db, chunk, ts);
            &&& n.state is Idle
            &&& n.hit_count == 0 && n.miss_count == 0
            &&& n.pre_times.len() == 0
            &&& m.probs.len() + 1 > 3 ==> n.audio.len() == 0 && n.probs.len() == 0 && n.times.len() == 0
                && n.pre_chunks.len() == 0
            &&& m.probs.len() + 1 <= 3 ==> n.audio == m.audio + chunk@ && n.probs.len() == m.probs.len()
                + 1 && n.times == m.times.push(ts) && n.pre_chunks == m.pre_chunks
        }),
{
}

/// One clip as the machine takes it: whether it was a hit, its smoothed
/// probability and loudness, its audio and its time stamp.
pub struct ClipInput<T> {
    pub hit: bool,
    pub prob: T,
    pub db: T,
    pub chunk: Vec<T>,
    pub ts: String,
}

/// The state after the clips `clips`, in order, starting from `m`.
pub open spec fn run<T>(m: MachineView<T>, clips: Seq<ClipInput<T>>) -> MachineView<T>
    decreases clips.len(),
{
    if clips.len() == 0 {
        m
    } else {
        let c = clips.last();
        next_view(run(m, clips.drop_last()), c.hit, c.prob, c.db, c.chunk, c.ts)
    }
}

/// How many of the last clips were hits, counted back to the latest miss.
pub open spec fn trailing_hits<T>(clips: Seq<ClipInput<T>>) -> nat
    decreases clips.len(),
{
    if clips.len() == 0 {
        0
    } else if clips.last().hit {
        trailing_hits(clips.drop_last()) + 1
    } else {
        0
    }
}

/// How many of the last clips were misses, counted back to the latest hit.
pub open spec fn trailing_misses<T>(clips: Seq<ClipInput<T>>) -> nat
    decreases clips.len(),
{
    if clips.len() == 0 {
        0
    } else if !clips.last().hit {
        trailing_misses(clips.drop_last()) + 1
    } else {
        0
    }
}

/// What one clip does to the streak counters and the state, in every state:
/// a hit clears the miss streak and a miss clears the hit streak; while the
/// state stays, a hit lengthens the hit streak (outside speech) and a miss
/// lengthens the miss streak (outside idle); the state changes only when a
/// streak reaches its threshold, towards speech on hits and away from it on
/// misses, and it does change whenever a streak reaches its threshold.
pub proof fn lemma_streaks<T>(
    m: MachineView<T>,
    hit: bool,
    prob: T,
    db: T,
    chunk: Vec<T>,
    ts: String,
)
    requires
        inv(m),
    ensures
        ({
            let n = next_view(m, hit, prob, db, chunk, ts);
            &&& n.required_hits == m.required_hits
            &&& n.required_misses == m.required_misses
            &&& hit ==> n.miss_count == 0
            &&& !hit ==> n.hit_count == 0
            &&& (hit && n.state == m.state && !(m.state is Active)) ==> n.hit_count == m.hit_count + 1
            &&& (!hit && n.state == m.state && !(m.state is Idle)) ==> n.miss_count == m.miss_count + 1
            &&& n.state != m.state ==> {
                ||| hit && m.hit_count + 1 >= m.required_hits && n.state is Active
                ||| !hit && m.miss_count + 1 >= m.required_misses && !(n.state is Active)
                    && !(m.state is Idle)
            }
            &&& (hit && m.hit_count + 1 >= m.required_hits && !(m.state is Active)) ==> n.state is Active
            &&& (!hit && m.miss_count + 1 >= m.required_misses && !(m.state is Idle)) ==> n.state
                != m.state
        }),
{
}

/// Over any run of clips from a state with no streak under way, the hit
/// count never exceeds the number of consecutive hits that end the run, and
/// the miss count never exceeds the number of consecutive misses that end it.
pub proof fn lemma_streak_counts<T>(m: MachineView<T>, clips: Seq<ClipInput<T>>)
    requires
        inv(m),
        m.hit_count == 0,
        m.miss_count == 0,
    ensures
        inv(run(m, clips)),
        run(m, clips).required_hits == m.required_hits,
        run(m, clips).required_misses == m.required_misses,
        run(m, clips).hit_count <= trailing_hits(clips),
        run(m, clips).miss_count <= trailing_misses(clips),
    decreases clips.len(),
{
    if clips.len() > 0 {
        let prev = clips.drop_last();
        let c = clips.last();
        lemma_streak_counts(m, prev);
        let p = run(m, prev);
        lemma_step_keeps_inv(p, c.hit, c.prob, c.db, c.chunk, c.ts);
        lemma_streaks(p, c.hit, c.prob, c.db, c.chunk, c.ts);
    }
}

/// Speech changes only after a full streak: when a clip moves the machine
/// into speech (from idle or from uncertain), the run ends with at least
/// `required_hits` consecutive hits; when a clip moves it away from speech
/// (to uncertain or to idle), the run ends with at least `required_misses`
/// consecutive misses. In particular `Pause` needs `required_hits` hits in a
/// row and `Resume` needs `required_misses` misses in a row.
pub proof fn lemma_changes_need_streaks<T>(m: MachineView<T>, clips: Seq<ClipInput<T>>, c: ClipInput<T>)
    requires
        inv(m),
        m.hit_count == 0,
        m.miss_count == 0,
    ensures
        ({
            let before = run(m, clips);
            let after = run(m, clips.push(c));
            &&& (after.state != before.state && after.state is Active) ==> trailing_hits(clips.push(c))
                >= m.required_hits
            &&& (after.state != before.state && !(after.state is Active)) ==> trailing_misses(
                clips.push(c),
            ) >= m.required_misses
            &&& starts_speech(before, c.hit) ==> trailing_hits(clips.push(c)) >= m.required_hits
            &&& ends_speech(before, c.hit) ==> trailing_misses(clips.push(c)) >= m.required_misses
        }),
{
    let all = clips.push(c);
    assert(all.drop_last() =~= clips);
    lemma_streak_counts(m, clips);
    let before = run(m, clips);
    lemma_streaks(before, c.hit, c.prob, c.db, c.chunk, c.ts);
}

/// Decides, clip by clip, when speech starts and ends in an audio stream and
/// gathers the audio of each utterance together with the clips heard just
/// before it started.
pub struct StateMachine<T> {
    stat_mchne: SpeakingStates,
    required_hits: usize,
    required_misses: usize,
    pre_sample_cnt: usize,
    prob_buf: Vec<T>,
    db_buf: Vec<T>,
    vec_buf: Vec<T>,
    time_buf: Vec<String>,
    miss_count: usize,
    hit_count: usize,
    pre_buf_vec: FixedLengthQueue<Vec<T>>,
    pre_time_buf: FixedLengthQueue<String>,
}

impl<T> View for StateMachine<T> {
    type V = MachineView<T>;

    closed spec fn view(&self) -> MachineView<T> {
        MachineView {
            state: self.stat_mchne,
            hit_count: self.hit_count as nat,
            miss_count: self.miss_count as nat,
            required_hits: self.required_hits as nat,
            required_misses: self.required_misses as nat,
            pre_capacity: self.pre_buf_vec.capacity(),
            probs: self.prob_buf@,
            dbs: self.db_buf@,
            audio: self.vec_buf@,
            times: self.time_buf@,
            pre_chunks: self.pre_buf_vec@,
            pre_times: self.pre_time_buf@,
        }
    }
}

/// Takes every chunk out of `q` and joins their audio, oldest first.
fn drain_oldest_first<T>(q: &mut FixedLengthQueue<Vec<T>>) -> (r: Vec<T>)
    requires
        old(q).wf(),
    ensures
        r@ == oldest_first_audio(old(q)@),
        final(q)@ == Seq::<Vec<T>>::empty(),
        final(q).capacity() == old(q).capacity(),
        final(q).wf(),
{
    let mut out: Vec<T> = Vec::new();
    let ghost orig = q@;
    loop
        invariant
            q.wf(),
            q.capacity() == old(q).capacity(),
            out@ + oldest_first_audio(q@) == oldest_first_audio(orig),
        ensures
            q@ == Seq::<Vec<T>>::empty(),
            out@ == oldest_first_audio(orig),
        decreases q@.len(),
    {
        let ghost before = q@;
        match q.pop_oldest() {
            Some(mut c) => {
                let ghost cv = c@;
                out.append(&mut c);
                assert(oldest_first_audio(before) == cv + oldest_first_audio(q@));
                assert(out@ + oldest_first_audio(q@) =~= oldest_first_audio(orig));
            },
            None => {
                assert(out@ =~= oldest_first_audio(orig));
                break ;
            },
        }
    }
    out
}

impl<T> StateMachine<T> {
    /// The internal state is consistent with the view's invariant.
    pub closed spec fn wf(&self) -> bool {
        &&& inv(self@)
        &&& self.pre_buf_vec.wf()
        &&& self.pre_time_buf.wf()
        &&& self.pre_time_buf.capacity() == self.pre_buf_vec.capacity()
        &&& self.pre_buf_vec.capacity() == self.required_hits + self.pre_sample_cnt
    }

    /// A machine in the idle state that starts speech after `required_hits`
    /// hits in a row, ends it after `required_misses` misses in a row, and
    /// keeps `required_hits + pre_sample_cnt` clips of history.
    pub fn new(required_hits: usize, required_misses: usize, pre_sample_cnt: usize) -> (r: Self)
        requires
            required_hits + pre_sample_cnt > 0,
            required_hits + pre_sample_cnt <= usize::MAX,
        ensures
            r.wf(),
            inv(r@),
            r@ == initial_view::<T>(
                required_hits as nat,
                required_misses as nat,
                (required_hits + pre_sample_cnt) as nat,
            ),
    {
        let cap: usize = required_hits + pre_sample_cnt;
        let r = Self {
            stat_mchne: SpeakingStates::Idle,
            required_hits,
            required_misses,
            pre_sample_cnt,
            prob_buf: Vec::new(),
            db_buf: Vec::new(),
            vec_buf: Vec::new(),
            time_buf: Vec::new(),
            miss_count: 0,
            hit_count: 0,
            pre_buf_vec: FixedLengthQueue::new(cap),
            pre_time_buf: FixedLengthQueue::new(cap),
        };
        assert(r@ =~= initial_view::<T>(required_hits as nat, required_misses as nat, cap as nat));
        r
    }

    /// The current state.
    pub fn state(&self) -> (r: SpeakingStates)
        ensures
            r == self@.state,
    {
        self.stat_mchne
    }

    fn update(&mut self, chunk_vec: Vec<T>, prob: T, db: T, time_stamp: String)
        requires
            old(self).wf(),
        ensures
            final(self)@ == gathered(old(self)@, prob, db, chunk_vec, time_stamp),
            final(self).wf(),
            final(self).pre_sample_cnt == old(self).pre_sample_cnt,
    {
        self.prob_buf.push(prob);
        self.db_buf.push(db);
        let mut chunk = chunk_vec;
        self.vec_buf.append(&mut chunk);
        self.time_buf.push(time_stamp);
        assert(self@ =~= gathered(old(self)@, prob, db, chunk_vec, time_stamp));
    }

    fn update_on_idle(&mut self, chnk_vec: Vec<T>, hit: bool, time_stamp: String) -> (r: VadSignal<T>)
        requires
            old(self).wf(),
            old(self)@.state is Idle,
        ensures
            final(self).wf(),
            final(self)@ == idle_next(old(self)@, hit, chnk_vec, time_stamp),
            starts_speech(old(self)@, hit) ==> r is Pause,
            !starts_speech(old(self)@, hit) ==> r is Quiet,
    {
        self.pre_buf_vec.push_front_(chnk_vec);
        self.pre_time_buf.push_front_(time_stamp);
        if hit {
            self.hit_count = self.hit_count + 1;
            if self.hit_count >= self.required_hits {
                self.stat_mchne = SpeakingStates::Active;
                self.hit_count = 0;
                assert(self@ =~= idle_next(old(self)@, hit, chnk_vec, time_stamp));
                return VadSignal::Pause;
            }
        } else {
            self.hit_count = 0;
        }
        assert(self@ =~= idle_next(old(self)@, hit, chnk_vec, time_stamp));
        VadSignal::Quiet
    }

    fn update_on_active(&mut self, chnk_vec: Vec<T>, prob: T, db: T, hit: bool, time_stamp: String)
        requires
            old(self).wf(),
            old(self)@.state is Active,
        ensures
            final(self).wf(),
            final(self)@ == active_next(old(self)@, hit, prob, db, chnk_vec, time_stamp),
    {
        self.update(chnk_vec, prob, db, time_stamp);
        if hit {
            self.miss_count = 0;
        } else {
            self.miss_count = self.miss_count + 1;
            if self.miss_count >= self.required_misses {
                self.stat_mchne = SpeakingStates::InActive;
                self.miss_count = 0;
            }
        }
        assert(self@ =~= active_next(old(self)@, hit, prob, db, chnk_vec, time_stamp));
    }

    fn update_on_inactive(
        &mut self,
        chnk_vec: Vec<T>,
        prob: T,
        db: T,
        hit: bool,
        time_stamp: String,
        meta: SlicedVoiceData<T>,
    ) -> (r: VadSignal<T>)
        requires
            old(self).wf(),
            old(self)@.state is InActive,
        ensures
            final(self).wf(),
            final(self)@ == inactive_next(old(self)@, hit, prob, db, chnk_vec, time_stamp),
            !ends_speech(old(self)@, hit) ==> r is Quiet,
            ends_speech(old(self)@, hit) ==> (r matches VadSignal::Resume(seg) && (seg is Some
                <==> old(self)@.probs.len() + 1 > MIN_CLIPS)),
            r matches VadSignal::Resume(Some(seg)) ==> {
                &&& seg.status == meta.status
                &&& seg.device_id == meta.device_id
                &&& seg.user_id == meta.user_id
                &&& seg.id == meta.id
                &&& seg.img == meta.img
                &&& seg.audio matches Some(a) && a@ == oldest_first_audio(old(self)@.pre_chunks)
                    + old(self)@.audio + chnk_vec@
                &&& seg.start_time == old(self)@.pre_times.last()
                &&& seg.end_time == time_stamp
            },
    {
        let ghost m0 = self@;
        self.update(chnk_vec, prob, db, time_stamp);
        if hit {
            self.hit_count = self.hit_count + 1;
            self.miss_count = 0;
            if self.hit_count >= self.required_hits {
                self.stat_mchne = SpeakingStates::Active;
                self.hit_count = 0;
            }
            assert(self@ =~= inactive_next(m0, hit, prob, db, chnk_vec, time_stamp));
            return VadSignal::Quiet;
        }
        self.miss_count = self.miss_count + 1;
        self.hit_count = 0;
        if self.miss_count < self.required_misses {
            assert(self@ =~= inactive_next(m0, hit, prob, db, chnk_vec, time_stamp));
            return VadSignal::Quiet;
        }
        self.stat_mchne = SpeakingStates::Idle;
        self.miss_count = 0;
        let cap: usize = self.pre_time_buf.size();
        let mut seg: Option<SlicedVoiceData<T>> = None;
        if self.prob_buf.len() > MIN_CLIPS {
            let ghost m1 = self@;
            let mut out = drain_oldest_first(&mut self.pre_buf_vec);
            out.append(&mut self.vec_buf);
            let start_time = match self.pre_time_buf.pop_oldest() {
                Some(t) => t,
                None => String::new(),
            };
            let end_time = match self.time_buf.pop() {
                Some(t) => t,
                None => String::new(),
            };
            self.time_buf = Vec::new();
            self.prob_buf.clear();
            self.db_buf.clear();
            let mut data = meta;
            data.audio = Some(out);
            data.start_time = start_time;
            data.end_time = end_time;
            assert(m1.pre_chunks == m0.pre_chunks);
            assert(m1.audio == m0.audio + chnk_vec@);
            seg = Some(data);
        }
        self.pre_time_buf = FixedLengthQueue::new(cap);
        assert(self@ =~= inactive_next(m0, hit, prob, db, chnk_vec, time_stamp));
        VadSignal::Resume(seg)
    }

    /// Processes one clip. `smoothed_prob` and `smoothed_db` are the clip's
    /// smoothed speech probability and loudness and `hit` whether both reach
    /// their thresholds. A clip without audio changes nothing; otherwise the
    /// state moves by `next_view`, a `Pause` is returned exactly when speech
    /// starts and a `Resume` exactly when it ends, carrying the utterance
    /// when more than `MIN_CLIPS` clips were gathered.
    pub fn process(&mut self, smoothed_prob: T, smoothed_db: T, hit: bool, input_data: VoiceData<T>) -> (r: VadSignal<T>)
        requires
            old(self).wf(),
        ensures
            final(self).wf(),
            inv(final(self)@),
            input_data.audio is None ==> final(self)@ == old(self)@ && r is Quiet,
            input_data.audio matches Some(chunk) ==> {
                &&& final(self)@ == next_view(old(self)@, hit, smoothed_prob, smoothed_db, chunk, input_data.time_stamp)
                &&& (r is Pause <==> starts_speech(old(self)@, hit))
                &&& (r is Resume <==> ends_speech(old(self)@, hit))
                &&& (r matches VadSignal::Resume(seg) ==> (seg is Some <==> old(self)@.probs.len() + 1 > MIN_CLIPS))
                &&& (r matches VadSignal::Resume(Some(seg)) ==> is_segment(seg, old(self)@, chunk, input_data))
            },
    {
        let mut meta = input_data.init_to_sliced_voice_data_with_ref();
        let VoiceData { status: _, device_id: _, user_id: _, id: _, img, audio, time_stamp } = input_data;
        let chunk = match audio {
            None => return VadSignal::Quiet,
            Some(a) => a,
        };
        meta.img = img;
        match self.stat_mchne {
            SpeakingStates::Idle => self.update_on_idle(chunk, hit, time_stamp),
            SpeakingStates::Active => {
                self.update_on_active(chunk, smoothed_prob, smoothed_db, hit, time_stamp);
                VadSignal::Quiet
            },
            SpeakingStates::InActive => self.update_on_inactive(
                chunk,
                smoothed_prob,
                smoothed_db,
                hit,
                time_stamp,
                meta,
            ),
        }
    }
}

} // verus!
