//! The TCP options list: a single left-to-right scan over untrusted bytes.
//!
//! `scan` is the model of the decoder. With `capped` set it applies the
//! capacity policy (`MAX_OPTIONS`, `MAX_SACK_RANGES`); without it, it is the
//! complete decode that the capped result is a prefix of.
use vstd::prelude::*;
use crate::wire::{be16, be32, read_be16, read_be32};

verus! {

/// Most options kept from one segment; decoding stops once this many are held.
pub const MAX_OPTIONS: usize = 8;

/// Most SACK blocks kept from one segment; a SACK option that would go past
/// this stops decoding.
pub const MAX_SACK_RANGES: usize = 4;

/// One SACK block: the left and right edge of a received range.
#[derive(Clone, Copy, PartialEq, Eq, Structural, Debug)]
pub struct TcpSackRange(pub u32, pub u32);

impl TcpSackRange {
    pub fn new(start: u32, end: u32) -> (r: Self)
        ensures
            r.0 == start,
            r.1 == end,
    {
        TcpSackRange(start, end)
    }

    pub fn start(&self) -> (r: u32)
        ensures
            r == self.0,
    {
        self.0
    }

    pub fn end(&self) -> (r: u32)
        ensures
            r == self.1,
    {
        self.1
    }
}

/// The timestamp option: the sender's clock value and the echoed peer value.
#[derive(Clone, Copy, PartialEq, Eq, Structural, Debug)]
pub struct TcpTimestamp(pub u32, pub u32);

impl TcpTimestamp {
    pub fn new(timestamp: u32, echo: u32) -> (r: Self)
        ensures
            r.0 == timestamp,
            r.1 == echo,
    {
        TcpTimestamp(timestamp, echo)
    }

    pub fn timestamp(&self) -> (r: u32)
        ensures
            r == self.0,
    {
        self.0
    }

    pub fn echo(&self) -> (r: u32)
        ensures
            r == self.1,
    {
        self.1
    }
}

/// A decoded option, in the order it appeared. The blocks of a `Sack` entry
/// are kept in the separate list of SACK ranges.
#[derive(Clone, Copy, PartialEq, Eq, Structural, Debug)]
pub enum TcpOption {
    MSS { mss: u16 },
    WindowScale { scale: u8 },
    SackPermitted,
    Sack { blocks: u8 },
    Timestamp { stamp: TcpTimestamp },
}

/// What a decode produced: the options in order and all SACK blocks in order.
pub struct OptionsView {
    pub options: Seq<TcpOption>,
    pub sack_ranges: Seq<TcpSackRange>,
}

/// The outcome of decoding the option that starts at one position.
pub enum OptionStep {
    /// End of list, or an option that does not fit in the bytes.
    Stop,
    /// Padding or an unrecognised option, skipped; scanning goes on at `next`.
    Skip { next: nat },
    /// A decoded option (with its SACK blocks, if any); scanning goes on at `next`.
    Entry { option: TcpOption, ranges: Seq<TcpSackRange>, next: nat },
}

pub open spec fn empty_options() -> OptionsView {
    OptionsView { options: Seq::empty(), sack_ranges: Seq::empty() }
}

/// The `count` SACK blocks whose bytes start at `start`.
pub open spec fn sack_blocks(b: Seq<u8>, start: int, count: nat) -> Seq<TcpSackRange> {
    Seq::new(count, |i: int| TcpSackRange(be32(b, start + 8 * i), be32(b, start + 8 * i + 4)))
}

/// The option at `pos` has a length byte, the length is at least two, and the
/// whole option lies inside `b`.
pub open spec fn declared_len_fits(b: Seq<u8>, pos: int) -> bool {
    &&& pos + 2 <= b.len()
    &&& b[pos + 1] >= 2
    &&& pos + b[pos + 1] <= b.len()
}

/// The option at `pos` declares exactly `n` bytes, and they lie inside `b`.
pub open spec fn fixed_len_fits(b: Seq<u8>, pos: int, n: u8) -> bool {
    declared_len_fits(b, pos) && b[pos + 1] == n
}

/// The SACK option at `pos` declares a length of two plus whole blocks, and
/// lies inside `b`.
pub open spec fn sack_len_fits(b: Seq<u8>, pos: int) -> bool {
    declared_len_fits(b, pos) && (b[pos + 1] - 2) % 8 == 0
}

/// Decoding of the single option at `pos`. Every option is consumed by its
/// declared length; a known kind whose length byte is missing, out of bounds
/// or not its standard length stops decoding. Every field read lies inside `b`.
pub open spec fn option_step(b: Seq<u8>, pos: int) -> OptionStep {
    let kind = b[pos];
    if kind == 0 {
        OptionStep::Stop
    } else if kind == 1 {
        OptionStep::Skip { next: (pos + 1) as nat }
    } else if kind == 2 {
        if fixed_len_fits(b, pos, 4) {
            OptionStep::Entry {
                option: TcpOption::MSS { mss: be16(b, pos + 2) },
                ranges: Seq::empty(),
                next: (pos + 4) as nat,
            }
        } else {
            OptionStep::Stop
        }
    } else if kind == 3 {
        if fixed_len_fits(b, pos, 3) {
            OptionStep::Entry {
                option: TcpOption::WindowScale { scale: b[pos + 2] },
                ranges: Seq::empty(),
                next: (pos + 3) as nat,
            }
        } else {
            OptionStep::Stop
        }
    } else if kind == 4 {
        if fixed_len_fits(b, pos, 2) {
            OptionStep::Entry {
                option: TcpOption::SackPermitted,
                ranges: Seq::empty(),
                next: (pos + 2) as nat,
            }
        } else {
            OptionStep::Stop
        }
    } else if kind == 5 {
        if sack_len_fits(b, pos) {
            let n = ((b[pos + 1] - 2) / 8) as nat;
            OptionStep::Entry {
                option: TcpOption::Sack { blocks: n as u8 },
                ranges: sack_blocks(b, pos + 2, n),
                next: (pos + b[pos + 1]) as nat,
            }
        } else {
            OptionStep::Stop
        }
    } else if kind == 8 {
        if fixed_len_fits(b, pos, 10) {
            OptionStep::Entry {
                option: TcpOption::Timestamp {
                    stamp: TcpTimestamp(be32(b, pos + 2), be32(b, pos + 6)),
                },
                ranges: Seq::empty(),
                next: (pos + 10) as nat,
            }
        } else {
            OptionStep::Stop
        }
    } else if declared_len_fits(b, pos) {
        OptionStep::Skip { next: (pos + b[pos + 1]) as nat }
    } else {
        OptionStep::Stop
    }
}

pub open spec fn with_entry(acc: OptionsView, option: TcpOption, ranges: Seq<TcpSackRange>) -> OptionsView {
    OptionsView { options: acc.options.push(option), sack_ranges: acc.sack_ranges + ranges }
}

/// Decoding from `pos` on, after `acc` was decoded before it.
pub open spec fn scan(b: Seq<u8>, pos: nat, acc: OptionsView, capped: bool) -> OptionsView
    decreases b.len() - pos,
{
    if pos >= b.len() || (capped && acc.options.len() >= MAX_OPTIONS) {
        acc
    } else {
        match option_step(b, pos as int) {
            OptionStep::Stop => acc,
            OptionStep::Skip { next } => {
                if pos < next <= b.len() {
                    scan(b, next, acc, capped)
                } else {
                    acc
                }
            },
            OptionStep::Entry { option, ranges, next } => {
                if capped && acc.sack_ranges.len() + ranges.len() > MAX_SACK_RANGES {
                    acc
                } else if pos < next <= b.len() {
                    scan(b, next, with_entry(acc, option, ranges), capped)
                } else {
                    acc
                }
            },
        }
    }
}

/// What the parser returns for `b`: the decode under the capacity policy.
pub open spec fn parse_spec(b: Seq<u8>) -> OptionsView {
    scan(b, 0, empty_options(), true)
}

/// The complete decode of `b`: every option consumed by its declared length,
/// up to the end of the list or the first truncated or malformed option,
/// with no capacity policy.
pub open spec fn decode_all(b: Seq<u8>) -> OptionsView {
    scan(b, 0, empty_options(), false)
}

/// The result of parsing one segment's options.
pub struct ParsedOptionSet {
    pub options: Vec<TcpOption>,
    pub sack_ranges: Vec<TcpSackRange>,
}

impl View for ParsedOptionSet {
    type V = OptionsView;

    open spec fn view(&self) -> OptionsView {
        OptionsView { options: self.options@, sack_ranges: self.sack_ranges@ }
    }
}

/// Decodes a TCP options list. A truncated or malformed option ends the scan
/// and everything decoded before it is returned.
pub fn parse_options(b: &[u8]) -> (r: ParsedOptionSet)
    ensures
        r@ == parse_spec(b@),
        r.options@.len() <= MAX_OPTIONS,
        r.sack_ranges@.len() <= MAX_SACK_RANGES,
{
    let mut options: Vec<TcpOption> = Vec::new();
    let mut sack_ranges: Vec<TcpSackRange> = Vec::new();
    let len = b.len();
    let mut pos: usize = 0;
    while pos < len && options.len() < MAX_OPTIONS
        invariant
            len == b@.len(),
            pos <= len,
            options@.len() <= MAX_OPTIONS,
            sack_ranges@.len() <= MAX_SACK_RANGES,
            scan(b@, pos as nat, (OptionsView { options: options@, sack_ranges: sack_ranges@ }), true)
                == parse_spec(b@),
        ensures
            options@.len() <= MAX_OPTIONS,
            sack_ranges@.len() <= MAX_SACK_RANGES,
            (OptionsView { options: options@, sack_ranges: sack_ranges@ }) == parse_spec(b@),
        decreases len - pos,
    {
        let kind = b[pos];
        if kind == 0 {
            break;
        } else if kind == 1 {
            pos = pos + 1;
        } else if kind == 2 {
            if len - pos < 4 || b[pos + 1] != 4 {
                break;
            }
            let mss = read_be16(b, pos + 2);
            options.push(TcpOption::MSS { mss });
            pos = pos + 4;
        } else if kind == 3 {
            if len - pos < 3 || b[pos + 1] != 3 {
                break;
            }
            options.push(TcpOption::WindowScale { scale: b[pos + 2] });
            pos = pos + 3;
        } else if kind == 4 {
            if len - pos < 2 || b[pos + 1] != 2 {
                break;
            }
            options.push(TcpOption::SackPermitted);
            pos = pos + 2;
        } else if kind == 5 {
            if len - pos < 2 {
                break;
            }
            let length = b[pos + 1] as usize;
            if length < 2 || len - pos < length || (length - 2) % 8 != 0 {
                break;
            }
            let blocks = (length - 2) / 8;
            if sack_ranges.len() + blocks > MAX_SACK_RANGES {
                break;
            }
            let ghost before = sack_ranges@;
            let mut i: usize = 0;
            while i < blocks
                invariant
                    len == b@.len(),
                    pos + length <= len,
                    2 + 8 * blocks <= length,
                    i <= blocks,
                    sack_ranges@ == before + sack_blocks(b@, pos + 2, i as nat),
                decreases blocks - i,
            {
                let start = read_be32(b, pos + 2 + 8 * i);
                let end = read_be32(b, pos + 6 + 8 * i);
                sack_ranges.push(TcpSackRange(start, end));
                assert(sack_blocks(b@, pos + 2, (i + 1) as nat) =~= sack_blocks(
                    b@,
                    pos + 2,
                    i as nat,
                ).push(TcpSackRange(start, end)));
                i = i + 1;
            }
            options.push(TcpOption::Sack { blocks: blocks as u8 });
            pos = pos + length;
        } else if kind == 8 {
            if len - pos < 10 || b[pos + 1] != 10 {
                break;
            }
            let value = read_be32(b, pos + 2);
            let echo = read_be32(b, pos + 6);
            options.push(TcpOption::Timestamp { stamp: TcpTimestamp(value, echo) });
            pos = pos + 10;
        } else {
            if len - pos < 2 {
                break;
            }
            let length = b[pos + 1] as usize;
            if length < 2 || len - pos < length {
                break;
            }
            pos = pos + length;
        }
    }
    ParsedOptionSet { options, sack_ranges }
}


/// `a` is an initial part of `b`.
pub open spec fn is_prefix<T>(a: Seq<T>, b: Seq<T>) -> bool {
    a.len() <= b.len() && a =~= b.subrange(0, a.len() as int)
}

/// Both lists of `a` are initial parts of the lists of `b`.
pub open spec fn view_is_prefix(a: OptionsView, b: OptionsView) -> bool {
    is_prefix(a.options, b.options) && is_prefix(a.sack_ranges, b.sack_ranges)
}

proof fn lemma_prefix_trans<T>(a: Seq<T>, b: Seq<T>, c: Seq<T>)
    requires
        is_prefix(a, b),
        is_prefix(b, c),
    ensures
        is_prefix(a, c),
{
    assert(a =~= c.subrange(0, a.len() as int)) by {
        assert forall|i: int| 0 <= i < a.len() implies a[i] == c[i] by {
            assert(a[i] == b[i]);
            assert(b[i] == c[i]);
        }
    }
}

proof fn lemma_view_prefix_trans(a: OptionsView, b: OptionsView, c: OptionsView)
    requires
        view_is_prefix(a, b),
        view_is_prefix(b, c),
    ensures
        view_is_prefix(a, c),
{
    lemma_prefix_trans(a.options, b.options, c.options);
    lemma_prefix_trans(a.sack_ranges, b.sack_ranges, c.sack_ranges);
}

/// Scanning only ever adds to what was decoded before.
proof fn lemma_scan_extends(b: Seq<u8>, pos: nat, acc: OptionsView, capped: bool)
    ensures
        view_is_prefix(acc, scan(b, pos, acc, capped)),
    decreases b.len() - pos,
{
    if pos >= b.len() || (capped && acc.options.len() >= MAX_OPTIONS) {
    } else {
        match option_step(b, pos as int) {
            OptionStep::Stop => {},
            OptionStep::Skip { next } => {
                if pos < next <= b.len() {
                    lemma_scan_extends(b, next, acc, capped);
                }
            },
            OptionStep::Entry { option, ranges, next } => {
                if capped && acc.sack_ranges.len() + ranges.len() > MAX_SACK_RANGES {
                } else if pos < next <= b.len() {
                    let acc2 = with_entry(acc, option, ranges);
                    assert(view_is_prefix(acc, acc2));
                    lemma_scan_extends(b, next, acc2, capped);
                    lemma_view_prefix_trans(acc, acc2, scan(b, next, acc2, capped));
                }
            },
        }
    }
}

proof fn lemma_scan_capped_prefix(b: Seq<u8>, pos: nat, acc: OptionsView)
    ensures
        view_is_prefix(scan(b, pos, acc, true), scan(b, pos, acc, false)),
    decreases b.len() - pos,
{
    lemma_scan_extends(b, pos, acc, false);
    if pos >= b.len() || acc.options.len() >= MAX_OPTIONS {
    } else {
        match option_step(b, pos as int) {
            OptionStep::Stop => {},
            OptionStep::Skip { next } => {
                if pos < next <= b.len() {
                    lemma_scan_capped_prefix(b, next, acc);
                }
            },
            OptionStep::Entry { option, ranges, next } => {
                if acc.sack_ranges.len() + ranges.len() > MAX_SACK_RANGES {
                } else if pos < next <= b.len() {
                    lemma_scan_capped_prefix(b, next, with_entry(acc, option, ranges));
                }
            },
        }
    }
}

/// An option that decodes inside the first `n` bytes decodes the same way in
/// the whole sequence.
proof fn lemma_step_in_truncation(b: Seq<u8>, n: nat, pos: int)
    requires
        0 <= pos < n <= b.len(),
    ensures
        option_step(b.subrange(0, n as int), pos) is Stop || option_step(b.subrange(0, n as int), pos)
            == option_step(b, pos),
{
    let t = b.subrange(0, n as int);
    assert forall|i: int| 0 <= i < n implies t[i] == b[i] by {}
    if t[pos] == 5 && declared_len_fits(t, pos) {
        let k = ((t[pos + 1] - 2) / 8) as nat;
        assert(sack_blocks(t, pos + 2, k) =~= sack_blocks(b, pos + 2, k));
    }
}

proof fn lemma_scan_truncated(b: Seq<u8>, n: nat, pos: nat, acc: OptionsView, capped: bool)
    requires
        n <= b.len(),
    ensures
        view_is_prefix(scan(b.subrange(0, n as int), pos, acc, capped), scan(b, pos, acc, capped)),
    decreases b.len() - pos,
{
    let t = b.subrange(0, n as int);
    lemma_scan_extends(b, pos, acc, capped);
    if pos >= t.len() || (capped && acc.options.len() >= MAX_OPTIONS) {
    } else {
        lemma_step_in_truncation(b, n, pos as int);
        match option_step(t, pos as int) {
            OptionStep::Stop => {},
            OptionStep::Skip { next } => {
                if pos < next <= t.len() {
                    lemma_scan_truncated(b, n, next, acc, capped);
                }
            },
            OptionStep::Entry { option, ranges, next } => {
                if capped && acc.sack_ranges.len() + ranges.len() > MAX_SACK_RANGES {
                } else if pos < next <= t.len() {
                    lemma_scan_truncated(b, n, next, with_entry(acc, option, ranges), capped);
                }
            },
        }
    }
}

/// Apart from single-byte padding, every option that decoding moves past is
/// consumed by exactly the length its length byte declares.
pub proof fn lemma_options_consumed_by_declared_length(b: Seq<u8>, pos: int)
    requires
        0 <= pos < b.len(),
        b[pos] != 1,
    ensures
        match option_step(b, pos) {
            OptionStep::Stop => true,
            OptionStep::Skip { next } => pos + 2 <= b.len() && next == pos + b[pos + 1],
            OptionStep::Entry { next, .. } => pos + 2 <= b.len() && next == pos + b[pos + 1],
        },
{
}

/// Under the capacity policy the parser returns an initial part of the
/// complete decode: the same options and SACK blocks, in the same order,
/// up to the point where it stopped.
pub proof fn lemma_parse_is_prefix_of_complete_decode(b: Seq<u8>)
    ensures
        view_is_prefix(parse_spec(b), decode_all(b)),
{
    lemma_scan_capped_prefix(b, 0, empty_options());
}

/// Cutting the option bytes short never changes what was decoded before the
/// cut: the result for the truncated bytes is an initial part of the result
/// for the whole bytes, both for the parser and for the complete decode.
pub proof fn lemma_truncation_gives_prefix(b: Seq<u8>, n: nat)
    requires
        n <= b.len(),
    ensures
        view_is_prefix(parse_spec(b.subrange(0, n as int)), parse_spec(b)),
        view_is_prefix(decode_all(b.subrange(0, n as int)), decode_all(b)),
{
    lemma_scan_truncated(b, n, 0, empty_options(), true);
    lemma_scan_truncated(b, n, 0, empty_options(), false);
}

/// Parsing is a function of the bytes alone: equal option bytes give equal
/// results, whatever was parsed before.
pub proof fn lemma_parse_deterministic(a: Seq<u8>, b: Seq<u8>)
    requires
        a == b,
    ensures
        parse_spec(a) == parse_spec(b),
{
}

} // verus!
