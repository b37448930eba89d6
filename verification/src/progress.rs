use vstd::prelude::*;

verus! {

/// Bytes of the disguising header that precedes an encrypted file.
pub const FAKE_HEADER_BYTES: u64 = 8;

/// Bytes of the check block that follows the disguising header.
pub const CHECK_BYTES: u64 = 31;

/// What the front end is shown as progress: a percentage, never above 100.
pub struct CryptoProgressPayload {
    pub percent: u8,
}

/// The smaller of a percentage and 100.
pub open spec fn capped_percent(percent: u8) -> u8 {
    if percent <= 100 { percent } else { 100 }
}

/// The percentage of `total` that `processed` stands for, as the byte that
/// remains of it once cut to eight bits.
pub open spec fn percent_of(processed: u64, total: u64) -> u8 {
    ((processed * 100) / (total as int)) as u8
}

/// The progress event for a percentage: capped at 100.
pub fn frontend_progress_payload(percent: u8) -> (p: CryptoProgressPayload)
    ensures
        p.percent == capped_percent(percent),
        p.percent <= 100,
        percent <= 100 ==> p.percent == percent,
        percent > 100 ==> p.percent == 100,
{
    CryptoProgressPayload { percent: percent.min(100) }
}

/// Capping only cuts a percentage above 100 down to 100; a percentage within
/// 0..=100 is shown as it is.
pub proof fn lemma_capped_percent_keeps_in_range(percent: u8)
    ensures
        percent <= 100 ==> capped_percent(percent) == percent,
        percent > 100 ==> capped_percent(percent) == 100,
        capped_percent(percent) <= percent,
{
}

/// What one call of the stream cipher's `next` reports: a whole buffer went
/// through and more follows, or the last, possibly short, piece of this length.
pub enum StreamStep {
    Pending,
    Last(usize),
}

/// `next` reports a whole buffer with `usize::MAX`, and the last piece with its length.
pub open spec fn spec_stream_step(next: usize) -> StreamStep {
    if next == usize::MAX {
        StreamStep::Pending
    } else {
        StreamStep::Last(next)
    }
}

/// Reads what a call of the stream cipher's `next` returned.
pub fn stream_step(next: usize) -> (s: StreamStep)
    ensures
        s == spec_stream_step(next),
        s is Pending <==> next == usize::MAX,
        s matches StreamStep::Last(n) ==> n == next,
{
    if next == usize::MAX {
        StreamStep::Pending
    } else {
        StreamStep::Last(next)
    }
}

/// `usize::MAX` from `next` means a whole buffer and more to come; any other
/// value is the last piece, passed on with exactly that length.
pub proof fn lemma_stream_step_passes_length_on(next: usize)
    ensures
        next == usize::MAX ==> spec_stream_step(next) is Pending,
        next != usize::MAX ==> spec_stream_step(next) == StreamStep::Last(next),
{
}

/// Bytes of plain text that one step of the encrypting stream has consumed.
pub open spec fn spec_stream_progress_delta(next: usize, buffer_size: usize) -> u64 {
    if next == usize::MAX {
        buffer_size as u64
    } else {
        next as u64
    }
}

/// Bytes that one step of the encrypting stream reports as done: a whole
/// buffer while more follows, else the length of the last piece.
pub fn stream_progress_delta(next: usize, buffer_size: usize) -> (d: u64)
    ensures
        d == spec_stream_progress_delta(next, buffer_size),
        d == (if next == usize::MAX { buffer_size as int } else { next as int }),
{
    if next == usize::MAX {
        buffer_size as u64
    } else {
        next as u64
    }
}

/// Progress of an encryption: the bytes reported so far, added up without
/// overflow (saturating), against the size of the part that is encrypted.
pub struct EncryptProgress {
    processed: u64,
    encrypt_size: u64,
}

/// `a + b`, or `u64::MAX` where that sum does not fit.
pub open spec fn saturating_sum(a: u64, b: u64) -> u64 {
    if a + b <= u64::MAX { (a + b) as u64 } else { u64::MAX }
}

/// While no more bytes have gone through than the total, the percentage is
/// exact and at most 100; it is 100 once all have.
pub proof fn lemma_percent_within_total(processed: u64, total: u64)
    requires
        0 < total,
        processed <= total,
    ensures
        percent_of(processed, total) == (processed * 100) / (total as int),
        percent_of(processed, total) * total <= processed * 100,
        processed * 100 < (percent_of(processed, total) + 1) * total,
        percent_of(processed, total) <= 100,
        processed == total ==> percent_of(processed, total) == 100,
{
    let q = (processed * 100) / (total as int);
    assert(q * total <= processed * 100 && processed * 100 < (q + 1) * total) by (nonlinear_arith)
        requires
            0 < total,
            q == (processed * 100) / (total as int),
    ;
    assert((processed * 100) / (total as int) <= 100) by (nonlinear_arith)
        requires
            0 < total,
            processed <= total,
    ;
    assert(processed == total ==> (processed * 100) / (total as int) == 100) by (nonlinear_arith)
        requires
            0 < total,
    ;
}

/// Recording progress never lowers the count: the saturating sum is at least
/// each of its terms.
pub proof fn lemma_saturating_sum_monotone(a: u64, b: u64)
    ensures
        saturating_sum(a, b) >= a,
        saturating_sum(a, b) >= b,
        b == 0 ==> saturating_sum(a, b) == a,
        a + b <= u64::MAX ==> saturating_sum(a, b) == a + b,
        a + b > u64::MAX ==> saturating_sum(a, b) == u64::MAX,
{
}

impl EncryptProgress {
    pub closed spec fn processed_spec(&self) -> u64 {
        self.processed
    }

    pub closed spec fn encrypt_size_spec(&self) -> u64 {
        self.encrypt_size
    }

    /// Nothing reported yet, against a part of `encrypt_size` bytes.
    pub fn new(encrypt_size: u64) -> (p: Self)
        ensures
            p.processed_spec() == 0,
            p.encrypt_size_spec() == encrypt_size,
    {
        EncryptProgress { processed: 0, encrypt_size }
    }

    /// Adds `delta` bytes (saturating) and returns the percentage that they
    /// make of the encrypted part, cut to a byte.
    pub fn record(&mut self, delta: u64) -> (percent: u8)
        requires
            old(self).encrypt_size_spec() > 0,
            saturating_sum(old(self).processed_spec(), delta) * 100 <= u64::MAX,
        ensures
            final(self).processed_spec() == saturating_sum(old(self).processed_spec(), delta),
            old(self).processed_spec() + delta <= u64::MAX ==> final(self).processed_spec()
                == old(self).processed_spec() + delta,
            old(self).processed_spec() + delta > u64::MAX ==> final(self).processed_spec()
                == u64::MAX,
            final(self).encrypt_size_spec() == old(self).encrypt_size_spec(),
            percent == (((final(self).processed_spec() * 100) / (final(self).encrypt_size_spec() as int)) as u8),
            percent == percent_of(final(self).processed_spec(), final(self).encrypt_size_spec()),
    {
        self.processed = self.processed.saturating_add(delta);
        (self.processed * 100 / self.encrypt_size) as u8
    }

    /// Bytes reported so far.
    pub fn processed(&self) -> (r: u64)
        ensures
            r == self.processed_spec(),
    {
        self.processed
    }
}

/// Progress of a decryption: the bytes of the encrypted file gone through so
/// far, against the size of its encrypted part.
pub struct DecryptProgress {
    processed: u64,
    encrypted_part_size: u64,
}

impl DecryptProgress {
    pub closed spec fn processed_spec(&self) -> u64 {
        self.processed
    }

    pub closed spec fn encrypted_part_size_spec(&self) -> u64 {
        self.encrypted_part_size
    }

    /// Progress once the disguising header, the check block and the encrypted
    /// header of `header_size` bytes have been read.
    pub fn after_header(header_size: u64, encrypted_part_size: u64) -> (p: Self)
        requires
            FAKE_HEADER_BYTES + CHECK_BYTES + header_size <= u64::MAX,
        ensures
            p.processed_spec() == FAKE_HEADER_BYTES + CHECK_BYTES + header_size,
            p.encrypted_part_size_spec() == encrypted_part_size,
    {
        let mut processed = 0u64;
        processed += FAKE_HEADER_BYTES + CHECK_BYTES;
        processed += header_size;
        DecryptProgress { processed, encrypted_part_size }
    }

    /// The percentage shown before the next step: bytes gone through against
    /// the size of the encrypted part, cut to a byte.
    pub fn percent(&self) -> (percent: u8)
        requires
            self.encrypted_part_size_spec() > 0,
            self.processed_spec() * 100 <= u64::MAX,
        ensures
            percent == percent_of(self.processed_spec(), self.encrypted_part_size_spec()),
    {
        (self.processed * 100 / self.encrypted_part_size) as u8
    }

    /// Takes what the decrypting stream's `next` returned: a whole block of
    /// `block_size` bytes is counted and decryption goes on, or the last piece
    /// ends the stream and nothing more is counted.
    pub fn advance(&mut self, next: usize, block_size: u64) -> (s: StreamStep)
        requires
            next == usize::MAX ==> old(self).processed_spec() + block_size <= u64::MAX,
        ensures
            s == spec_stream_step(next),
            s is Pending <==> next == usize::MAX,
            s matches StreamStep::Last(n) ==> n == next,
            final(self).encrypted_part_size_spec() == old(self).encrypted_part_size_spec(),
            final(self).processed_spec() == (if next == usize::MAX {
                old(self).processed_spec() + block_size
            } else {
                old(self).processed_spec() as int
            }),
    {
        let s = stream_step(next);
        if let StreamStep::Pending = s {
            self.processed += block_size;
        }
        s
    }

    /// Bytes gone through so far.
    pub fn processed(&self) -> (r: u64)
        ensures
            r == self.processed_spec(),
    {
        self.processed
    }
}

/// Bytes copied so far by a plain copy loop.
pub struct CopyProgress {
    copied: u64,
}

impl CopyProgress {
    pub closed spec fn copied_spec(&self) -> u64 {
        self.copied
    }

    /// Nothing copied yet.
    pub fn new() -> (p: Self)
        ensures
            p.copied_spec() == 0,
    {
        CopyProgress { copied: 0 }
    }

    /// Takes the length of one read: zero ends the copy, anything else is
    /// written out and counted.
    pub fn on_read(&mut self, read: usize) -> (finished: bool)
        requires
            old(self).copied_spec() + read <= u64::MAX,
        ensures
            finished == (read == 0),
            final(self).copied_spec() == old(self).copied_spec() + read,
    {
        if read == 0 {
            return true;
        }
        self.copied += read as u64;
        false
    }

    /// Bytes copied so far.
    pub fn copied(&self) -> (r: u64)
        ensures
            r == self.copied_spec(),
    {
        self.copied
    }
}

} // verus!
