use vstd::prelude::*;
use crate::link::LinkEvent;
use crate::link::SerialLink;
use crate::utils::Exiter;

verus! {

/// Transfer rate payload bytes are sent at, in baud.
pub const TTY_DATA_SPEED: u32 = 500000;

/// Low transfer rate at which one zero byte holds the line long enough for
/// the receiver to see a framing error, its resynchronization marker.
pub const TTY_BREAK_SPEED: u32 = 1200;

/// How long the line is held after the break byte before the data rate is
/// restored, in milliseconds, so the receiver is sure to sample the break.
pub const BREAK_DELAY_MS: u64 = 10;

/// Pixel columns of the LED matrix display.
pub const DISPLAY_WIDTH: u32 = 64;

/// Pixel rows of the LED matrix display.
pub const DISPLAY_HEIGHT: u32 = 32;

/// The value a fill step writes into a buffer cell: both packed pixels of
/// the cell at full intensity.
pub const MAX_INTENSITY: u8 = 0xFF;

/// Settings of the LED matrix test: the serial device to drive and the
/// pause between two frames of the fill sweep, in milliseconds.
pub struct LedmatrixConfig {
    driver: String,
    fill_delay: u32,
}

impl LedmatrixConfig {
    /// The configured serial device identifier.
    pub closed spec fn driver_spec(self) -> Seq<char> {
        self.driver@
    }

    /// The configured inter-frame pause in milliseconds.
    pub closed spec fn fill_delay_spec(self) -> u32 {
        self.fill_delay
    }

    pub fn new(driver: String, fill_delay: u32) -> (r: LedmatrixConfig)
        ensures
            r.driver_spec() == driver@,
            r.fill_delay_spec() == fill_delay,
    {
        LedmatrixConfig { driver, fill_delay }
    }

    /// The configured serial device identifier.
    pub fn driver(&self) -> (r: &str)
        ensures
            r@ == self.driver_spec(),
    {
        self.driver.as_str()
    }

    /// The configured inter-frame pause in milliseconds.
    pub fn fill_delay(&self) -> (r: u32)
        ensures
            r == self.fill_delay_spec(),
    {
        self.fill_delay
    }
}

/// Bytes a draw buffer holds for a display of the given pixel dimensions:
/// four bits per pixel, plus two trailer bytes owned by the display firmware.
pub open spec fn draw_data_size(width: int, height: int) -> int {
    width * height / 2 + 2
}

/// Where a fill cursor stands after one step: one position further, wrapped
/// to the start of the buffer at its end.
pub open spec fn wrap_cursor(cur: int, len: int) -> int {
    if cur + 1 >= len {
        0
    } else {
        cur + 1
    }
}

/// Packed in-memory framebuffer plus the rotating cursor of the fill sweep.
pub struct DrawBuffer {
    data: Vec<u8>,
    cursor: usize,
}

impl DrawBuffer {
    /// The packed bytes, trailer included.
    pub closed spec fn bytes(self) -> Seq<u8> {
        self.data@
    }

    /// The index the next fill step writes to.
    pub closed spec fn cur(self) -> int {
        self.cursor as int
    }

    /// The cursor always points into the buffer.
    pub closed spec fn wf(self) -> bool {
        self.cursor < self.data.len()
    }

    /// A zeroed buffer sized from the display geometry, with the fill
    /// cursor at the start.
    pub fn new(width: u32, height: u32) -> (r: DrawBuffer)
        requires
            draw_data_size(width as int, height as int) <= usize::MAX,
        ensures
            r.wf(),
            r.bytes().len() == draw_data_size(width as int, height as int),
            forall|i: int| 0 <= i < r.bytes().len() ==> r.bytes()[i] == 0u8,
            r.cur() == 0,
    {
        proof {
            assert((width as int) * (height as int) <= 0xffff_ffffi64 * 0xffff_ffffi64)
                by (nonlinear_arith)
                requires
                    width <= 0xffff_ffffu32,
                    height <= 0xffff_ffffu32,
            ;
        }
        let n: usize = ((width as u64) * (height as u64) / 2 + 2) as usize;
        let mut data: Vec<u8> = Vec::new();
        while data.len() < n
            invariant
                data.len() <= n,
                forall|i: int| 0 <= i < data.len() ==> data[i] == 0u8,
            decreases n - data.len(),
        {
            data.push(0);
        }
        proof {
            assert((width as int) * (height as int) == (width as u64) * (height as u64)) by (nonlinear_arith);
        }
        DrawBuffer { data, cursor: 0 }
    }

    /// Bytes the buffer holds.
    pub fn size(&self) -> (r: usize)
        ensures
            r == self.bytes().len(),
    {
        self.data.len()
    }

    /// The byte at one position.
    pub fn byte_at(&self, i: usize) -> (r: u8)
        requires
            i < self.bytes().len(),
        ensures
            r == self.bytes()[i as int],
    {
        self.data[i]
    }

    /// The index the next fill step writes to.
    pub fn cursor_pos(&self) -> (r: usize)
        ensures
            r == self.cur(),
    {
        self.cursor
    }

    /// Read access to the packed bytes, for handing a frame to the link.
    pub fn as_bytes(&self) -> (r: &Vec<u8>)
        ensures
            r@ == self.bytes(),
    {
        &self.data
    }

    /// One step of the fill sweep: drive the cell under the cursor to full
    /// intensity and advance the cursor, wrapping at the buffer's end.
    /// Nothing is ever cleared: the sweep is cumulative.
    pub fn fill_step(&mut self)
        requires
            old(self).wf(),
        ensures
            final(self).wf(),
            final(self).bytes() == old(self).bytes().update(old(self).cur(), MAX_INTENSITY),
            final(self).cur() == wrap_cursor(old(self).cur(), old(self).bytes().len() as int),
    {
        let i = self.cursor;
        self.data.set(i, MAX_INTENSITY);
        if i + 1 >= self.data.len() {
            self.cursor = 0;
        } else {
            self.cursor = i + 1;
        }
    }
}

/// The actions one frame leaves on the line, in their strict order: the
/// break rate, the single zero break byte, the data rate, the full payload.
pub open spec fn frame_events(break_rate: u32, data_rate: u32, payload: Seq<u8>) -> Seq<LinkEvent> {
    seq![
        LinkEvent::RateChange(break_rate),
        LinkEvent::Write(seq![0u8]),
        LinkEvent::RateChange(data_rate),
        LinkEvent::Write(payload),
    ]
}

/// What a failed frame attempt leaves on the line: the frame actions that
/// succeeded, in their strict order, followed at most by the failed action —
/// a rate change possibly taken, or a write possibly cut short — and nothing
/// else: no action of a later step, and no resend.
pub open spec fn frame_error_extension(
    before: Seq<LinkEvent>,
    after: Seq<LinkEvent>,
    break_rate: u32,
    data_rate: u32,
    payload: Seq<u8>,
) -> bool {
    ||| after == before
    ||| after == before.push(LinkEvent::RateChange(break_rate))
    ||| (exists|j: int|
        0 <= j <= 1 && after == before.push(LinkEvent::RateChange(break_rate)).push(
            LinkEvent::Write(seq![0u8].subrange(0, j)),
        ))
    ||| after == before.push(LinkEvent::RateChange(break_rate)).push(
        LinkEvent::Write(seq![0u8]),
    ).push(LinkEvent::RateChange(data_rate))
    ||| (exists|j: int|
        0 <= j <= payload.len() && after == before.push(LinkEvent::RateChange(break_rate)).push(
            LinkEvent::Write(seq![0u8]),
        ).push(LinkEvent::RateChange(data_rate)).push(LinkEvent::Write(payload.subrange(0, j))))
}

/// Send one frame of draw data: hold the line at the break rate with a
/// single zero byte, wait out the break delay, restore the data rate, and
/// write the full payload. On success the link's history grows by exactly
/// the four frame actions, in order: two rate changes and two writes, and
/// nothing else. Any failure aborts the frame — the break timing has already
/// elapsed, so a partial resend could not be made safe — leaving at most the
/// actions up to and including the failed one on the line.
pub fn send_draw_data(tty: &mut SerialLink, buf: &[u8]) -> (r: Result<(), String>)
    ensures
        final(tty).break_rate_spec() == old(tty).break_rate_spec(),
        final(tty).data_rate_spec() == old(tty).data_rate_spec(),
        r is Ok ==> final(tty).history() == old(tty).history()
            + frame_events(old(tty).break_rate_spec(), old(tty).data_rate_spec(), buf@),
        r is Err ==> frame_error_extension(
            old(tty).history(),
            final(tty).history(),
            old(tty).break_rate_spec(),
            old(tty).data_rate_spec(),
            buf@,
        ),
{
    let break_byte: [u8; 1] = [0; 1];
    proof {
        assert(break_byte@ =~= seq![0u8]);
    }
    let break_rate = tty.break_rate_val();
    let data_rate = tty.data_rate_val();
    match tty.set_rate(break_rate) {
        Ok(()) => {}
        Err(e) => {
            return Err(e);
        }
    }
    match tty.write_bytes(break_byte.as_slice()) {
        Ok(()) => {}
        Err(e) => {
            proof {
                let h1 = old(tty).history().push(LinkEvent::RateChange(break_rate));
                if tty.history() != h1 {
                    let k = choose|k: int|
                        0 <= k <= break_byte@.len() && tty.history() == h1.push(
                            LinkEvent::Write(break_byte@.subrange(0, k)),
                        );
                    assert(0 <= k <= 1 && tty.history() == h1.push(
                        LinkEvent::Write(seq![0u8].subrange(0, k)),
                    ));
                }
            }
            return Err(e);
        }
    }
    tty.hold(BREAK_DELAY_MS);
    match tty.set_rate(data_rate) {
        Ok(()) => {}
        Err(e) => {
            proof {
                let h2 = old(tty).history().push(LinkEvent::RateChange(break_rate)).push(
                    LinkEvent::Write(seq![0u8]),
                );
                if tty.history() == h2 {
                    assert(seq![0u8].subrange(0, 1) =~= seq![0u8]);
                    assert(0 <= 1int <= 1 && tty.history()
                        == old(tty).history().push(LinkEvent::RateChange(break_rate)).push(
                        LinkEvent::Write(seq![0u8].subrange(0, 1)),
                    ));
                }
            }
            return Err(e);
        }
    }
    match tty.write_bytes(buf) {
        Ok(()) => {
            proof {
                assert(tty.history() =~= old(tty).history()
                    + frame_events(old(tty).break_rate_spec(), old(tty).data_rate_spec(), buf@));
            }
            Ok(())
        }
        Err(e) => {
            proof {
                let h3 = old(tty).history().push(LinkEvent::RateChange(break_rate)).push(
                    LinkEvent::Write(seq![0u8]),
                ).push(LinkEvent::RateChange(data_rate));
                if tty.history() != h3 {
                    let k = choose|k: int|
                        0 <= k <= buf@.len() && tty.history() == h3.push(
                            LinkEvent::Write(buf@.subrange(0, k)),
                        );
                    assert(0 <= k <= buf@.len() && tty.history() == h3.push(
                        LinkEvent::Write(buf@.subrange(0, k)),
                    ));
                }
            }
            Err(e)
        }
    }
}

/// The actions a run of frames leaves on the line: the frame actions of
/// each payload in turn.
pub open spec fn frames_of(break_rate: u32, data_rate: u32, payloads: Seq<Seq<u8>>) -> Seq<LinkEvent>
    decreases payloads.len(),
{
    if payloads.len() == 0 {
        Seq::empty()
    } else {
        frames_of(break_rate, data_rate, payloads.drop_last())
            + frame_events(break_rate, data_rate, payloads.last())
    }
}

/// One round of the fill sweep: drive the cell under the cursor to full
/// intensity, send the whole buffer as a frame, poll the exit signal, and —
/// only when the session goes on — wait out the configured delay. Returns
/// whether the exit signal ended the session, or the frame's error. The
/// buffer always advances by exactly one step; when the frame went out, the
/// link's history grows by exactly that one frame of the stepped buffer.
pub fn fill_round(tty: &mut SerialLink, buf: &mut DrawBuffer, exiter: &Exiter, fill_delay: u32) -> (r: Result<bool, String>)
    requires
        old(buf).wf(),
    ensures
        final(buf).wf(),
        final(tty).break_rate_spec() == old(tty).break_rate_spec(),
        final(tty).data_rate_spec() == old(tty).data_rate_spec(),
        final(buf).bytes() == old(buf).bytes().update(old(buf).cur(), MAX_INTENSITY),
        final(buf).cur() == wrap_cursor(old(buf).cur(), old(buf).bytes().len() as int),
        r is Ok ==> final(tty).history() == old(tty).history()
            + frame_events(old(tty).break_rate_spec(), old(tty).data_rate_spec(), final(buf).bytes()),
        r is Err ==> frame_error_extension(
            old(tty).history(),
            final(tty).history(),
            old(tty).break_rate_spec(),
            old(tty).data_rate_spec(),
            final(buf).bytes(),
        ),
{
    buf.fill_step();
    match send_draw_data(tty, buf.as_bytes().as_slice()) {
        Ok(()) => {
            if exiter.check() {
                Ok(true)
            } else {
                tty.hold(fill_delay as u64);
                Ok(false)
            }
        }
        Err(e) => Err(e),
    }
}

/// The successive buffer states the fill sweep sends, one per round, in
/// order: the state after one step, after two, and so on.
pub open spec fn sweep_payloads(s: Seq<u8>, cur: int, n: nat) -> Seq<Seq<u8>>
    decreases n,
{
    if n == 0 {
        Seq::empty()
    } else {
        sweep_payloads(s, cur, (n - 1) as nat).push(sweep(s, cur, n).0)
    }
}

/// Where a fill run stands after a number of completed rounds: the buffer at
/// the sweep state after that many steps, and the line history grown by one
/// frame of each successive sweep state, in order — each frame the buffer as
/// it stood when it was sent, each sent exactly once.
pub open spec fn fill_run_state(
    buf0: DrawBuffer,
    tty0: SerialLink,
    buf1: DrawBuffer,
    tty1: SerialLink,
    k: nat,
) -> bool {
    &&& buf1.bytes() == sweep(buf0.bytes(), buf0.cur(), k).0
    &&& buf1.cur() == sweep(buf0.bytes(), buf0.cur(), k).1
    &&& tty1.history() == tty0.history() + frames_of(
        tty0.break_rate_spec(),
        tty0.data_rate_spec(),
        sweep_payloads(buf0.bytes(), buf0.cur(), k),
    )
}

/// Drive the fill sweep round after round, up to a round budget. The run is
/// the fill sweep and nothing else: after `k` completed rounds the buffer
/// stands at the sweep state after `k` steps, and the line history grew by
/// exactly one frame of each successive sweep state, in order. The run ends
/// early with `Ok(true)` once the exit signal reports the session over —
/// always after that round's frame went out, so at least one whole frame
/// then stands on the line — with `Ok(false)` once the budget runs out
/// first, and with the first failed frame's error otherwise, that frame's
/// actions cut off at the failed step and nothing sent after it.
pub fn run_fill(tty: &mut SerialLink, buf: &mut DrawBuffer, exiter: &Exiter, fill_delay: u32, max_rounds: u64) -> (r: Result<bool, String>)
    requires
        old(buf).wf(),
    ensures
        final(buf).wf(),
        final(tty).break_rate_spec() == old(tty).break_rate_spec(),
        final(tty).data_rate_spec() == old(tty).data_rate_spec(),
        r == Ok::<bool, String>(true) ==> exists|k: nat|
            1 <= k <= max_rounds && fill_run_state(*old(buf), *old(tty), *final(buf), *final(tty), k),
        r == Ok::<bool, String>(false) ==> fill_run_state(
            *old(buf),
            *old(tty),
            *final(buf),
            *final(tty),
            max_rounds as nat,
        ),
        r is Err ==> exists|k: nat|
            1 <= k <= max_rounds && {
                &&& final(buf).bytes() == sweep(old(buf).bytes(), old(buf).cur(), k).0
                &&& final(buf).cur() == sweep(old(buf).bytes(), old(buf).cur(), k).1
                &&& frame_error_extension(
                    old(tty).history() + frames_of(
                        old(tty).break_rate_spec(),
                        old(tty).data_rate_spec(),
                        sweep_payloads(old(buf).bytes(), old(buf).cur(), (k - 1) as nat),
                    ),
                    final(tty).history(),
                    old(tty).break_rate_spec(),
                    old(tty).data_rate_spec(),
                    sweep(old(buf).bytes(), old(buf).cur(), k).0,
                )
            },
{
    let mut rounds: u64 = 0;
    proof {
        assert(tty.history() =~= tty.history() + frames_of(
            tty.break_rate_spec(),
            tty.data_rate_spec(),
            sweep_payloads(buf.bytes(), buf.cur(), 0),
        ));
    }
    while rounds < max_rounds
        invariant
            buf.wf(),
            old(buf).wf(),
            rounds <= max_rounds,
            tty.break_rate_spec() == old(tty).break_rate_spec(),
            tty.data_rate_spec() == old(tty).data_rate_spec(),
            fill_run_state(*old(buf), *old(tty), *buf, *tty, rounds as nat),
        decreases max_rounds - rounds,
    {
        proof {
            lemma_sweep_snoc(old(buf).bytes(), old(buf).cur(), rounds as nat);
        }
        let ghost h_before = tty.history();
        match fill_round(tty, buf, exiter, fill_delay) {
            Ok(done) => {
                proof {
                    let ps = sweep_payloads(old(buf).bytes(), old(buf).cur(), rounds as nat + 1);
                    assert(ps.drop_last() == sweep_payloads(
                        old(buf).bytes(),
                        old(buf).cur(),
                        rounds as nat,
                    ));
                    assert(ps.last() == buf.bytes());
                    assert(tty.history() =~= old(tty).history() + frames_of(
                        old(tty).break_rate_spec(),
                        old(tty).data_rate_spec(),
                        ps,
                    ));
                    assert(fill_run_state(*old(buf), *old(tty), *buf, *tty, rounds as nat + 1));
                }
                if done {
                    return Ok(true);
                }
            }
            Err(e) => {
                proof {
                    assert(buf.bytes() == sweep(
                        old(buf).bytes(),
                        old(buf).cur(),
                        rounds as nat + 1,
                    ).0 && buf.cur() == sweep(
                        old(buf).bytes(),
                        old(buf).cur(),
                        rounds as nat + 1,
                    ).1 && frame_error_extension(
                        old(tty).history() + frames_of(
                            old(tty).break_rate_spec(),
                            old(tty).data_rate_spec(),
                            sweep_payloads(old(buf).bytes(), old(buf).cur(), rounds as nat),
                        ),
                        tty.history(),
                        old(tty).break_rate_spec(),
                        old(tty).data_rate_spec(),
                        sweep(old(buf).bytes(), old(buf).cur(), rounds as nat + 1).0,
                    ));
                }
                return Err(e);
            }
        }
        rounds = rounds + 1;
    }
    Ok(false)
}

/// The LED matrix device test: open the configured serial device, then run
/// the fill sweep over a zeroed buffer sized from the display geometry until
/// the given exit signal reports the session over. Returns the open error if
/// the device is unavailable, the first frame error if the line fails mid-
/// test, and success once the operator ends the session.
pub fn test(config: &LedmatrixConfig, exiter: Exiter) -> Result<(), String> {
    let mut tty = match SerialLink::open(config.driver.as_str(), TTY_BREAK_SPEED, TTY_DATA_SPEED) {
        Ok(l) => l,
        Err(e) => {
            return Err(e);
        }
    };
    let mut buf = DrawBuffer::new(DISPLAY_WIDTH, DISPLAY_HEIGHT);
    match run_fill(&mut tty, &mut buf, &exiter, config.fill_delay, u64::MAX) {
        Ok(_) => Ok(()),
        Err(e) => Err(e),
    }
}

/// Where the fill sweep stands after a number of steps: each step drives
/// the cell under the cursor to full intensity and advances the cursor,
/// wrapping at the buffer's end.
pub open spec fn sweep(s: Seq<u8>, cur: int, n: nat) -> (Seq<u8>, int)
    decreases n,
{
    if n == 0 {
        (s, cur)
    } else {
        sweep(s.update(cur, MAX_INTENSITY), wrap_cursor(cur, s.len() as int), (n - 1) as nat)
    }
}

/// One more sweep step applies one fill step to where the sweep stands: the
/// cell under the sweep's cursor goes to full intensity and the cursor
/// advances, wrapping at the buffer's end.
proof fn lemma_sweep_snoc(s: Seq<u8>, cur: int, n: nat)
    requires
        0 <= cur < s.len(),
    ensures
        sweep(s, cur, n).0.len() == s.len(),
        0 <= sweep(s, cur, n).1 < s.len(),
        sweep(s, cur, n + 1).0 == sweep(s, cur, n).0.update(sweep(s, cur, n).1, MAX_INTENSITY),
        sweep(s, cur, n + 1).1 == wrap_cursor(sweep(s, cur, n).1, s.len() as int),
    decreases n,
{
    let s1 = s.update(cur, MAX_INTENSITY);
    let c1 = wrap_cursor(cur, s.len() as int);
    assert(sweep(s, cur, n + 1) == sweep(s1, c1, n));
    if n == 0 {
        assert(sweep(s1, c1, 0) == (s1, c1));
        assert(sweep(s, cur, 0) == (s, cur));
    } else {
        lemma_sweep_snoc(s1, c1, (n - 1) as nat);
        assert(sweep(s, cur, n) == sweep(s1, c1, (n - 1) as nat));
    }
}

/// Law of the cumulative sweep: a cell once driven to full intensity is
/// never cleared — it still stands at full intensity after any number of
/// further steps.
pub proof fn lemma_sweep_monotone(s: Seq<u8>, cur: int, n: nat, i: int)
    requires
        0 <= cur < s.len(),
        0 <= i < s.len(),
        s[i] == MAX_INTENSITY,
    ensures
        sweep(s, cur, n).0.len() == s.len(),
        sweep(s, cur, n).0[i] == MAX_INTENSITY,
    decreases n,
{
    if n > 0 {
        lemma_sweep_monotone(
            s.update(cur, MAX_INTENSITY),
            wrap_cursor(cur, s.len() as int),
            (n - 1) as nat,
            i,
        );
    }
}

/// A sweep segment that stays within the buffer drives exactly the cells it
/// passes to full intensity, leaves the rest untouched, and parks the cursor
/// one past the segment, wrapped to the start at the buffer's end.
proof fn lemma_sweep_segment(s: Seq<u8>, cur: int, n: nat)
    requires
        0 <= cur,
        cur + n <= s.len(),
        n >= 1 ==> cur < s.len(),
    ensures
        sweep(s, cur, n).0.len() == s.len(),
        forall|i: int| 0 <= i < s.len() ==> sweep(s, cur, n).0[i]
            == (if cur <= i < cur + n { MAX_INTENSITY } else { s[i] }),
        sweep(s, cur, n).1 == (if n == 0 { cur } else if cur + n >= s.len() { 0int } else { cur + n }),
    decreases n,
{
    if n >= 1 {
        let s2 = s.update(cur, MAX_INTENSITY);
        let cur2 = wrap_cursor(cur, s.len() as int);
        if n == 1 {
            lemma_sweep_segment(s2, cur2, 0);
        } else {
            lemma_sweep_segment(s2, cur + 1, (n - 1) as nat);
        }
    }
}

/// Law of the fill sweep: starting at the beginning of any non-empty buffer,
/// as many steps as the buffer has bytes drive every byte to full intensity,
/// and the next step's cursor has wrapped back to the start.
pub proof fn lemma_fill_sweep(s: Seq<u8>, n: nat)
    requires
        n == s.len(),
        n >= 1,
    ensures
        sweep(s, 0, n).0.len() == s.len(),
        forall|i: int| 0 <= i < s.len() ==> sweep(s, 0, n).0[i] == MAX_INTENSITY,
        sweep(s, 0, n).1 == 0,
{
    lemma_sweep_segment(s, 0, n);
}

} // verus!
