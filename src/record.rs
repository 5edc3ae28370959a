//! Severity levels and the byte layout of one record on the debug channel.
use vstd::prelude::*;
use vstd::string::StringSliceAdditionalSpecFns;

verus! {

/// Severity of a record, from the most to the least severe.
#[derive(Clone, Copy, Debug, PartialEq, Eq, Structural)]
pub enum Level {
    Error,
    Warn,
    Info,
    Debug,
    Trace,
}

/// Upper bound on the levels that are forwarded to the logger.
#[derive(Clone, Copy, Debug, PartialEq, Eq, Structural)]
pub enum LevelFilter {
    Off,
    Error,
    Warn,
    Info,
    Debug,
    Trace,
}

/// Rank of a level: 1 for the most severe, 5 for the most verbose.
pub open spec fn level_rank(level: Level) -> nat {
    match level {
        Level::Error => 1,
        Level::Warn => 2,
        Level::Info => 3,
        Level::Debug => 4,
        Level::Trace => 5,
    }
}

/// Rank of a filter: the rank of the most verbose level it lets through, 0 for none.
pub open spec fn filter_rank(filter: LevelFilter) -> nat {
    match filter {
        LevelFilter::Off => 0,
        LevelFilter::Error => 1,
        LevelFilter::Warn => 2,
        LevelFilter::Info => 3,
        LevelFilter::Debug => 4,
        LevelFilter::Trace => 5,
    }
}

/// Whether a record of `level` passes `filter`.
pub open spec fn admits(filter: LevelFilter, level: Level) -> bool {
    level_rank(level) <= filter_rank(filter)
}

/// The most verbose filter lets every level through.
pub proof fn lemma_trace_admits_all(level: Level)
    ensures
        admits(LevelFilter::Trace, level),
{
}

/// The upper-case ASCII name of a level.
pub open spec fn level_name(level: Level) -> Seq<u8> {
    match level {
        Level::Error => seq![0x45u8, 0x52u8, 0x52u8, 0x4fu8, 0x52u8],
        Level::Warn => seq![0x57u8, 0x41u8, 0x52u8, 0x4eu8],
        Level::Info => seq![0x49u8, 0x4eu8, 0x46u8, 0x4fu8],
        Level::Debug => seq![0x44u8, 0x45u8, 0x42u8, 0x55u8, 0x47u8],
        Level::Trace => seq![0x54u8, 0x52u8, 0x41u8, 0x43u8, 0x45u8],
    }
}

/// Width of the level field in a record.
pub const LEVEL_WIDTH: usize = 5;

/// `s` followed by as many spaces as it takes to reach `width` bytes.
pub open spec fn pad_right(s: Seq<u8>, width: nat) -> Seq<u8> {
    if s.len() < width {
        s + Seq::new((width - s.len()) as nat, |_i: int| 0x20u8)
    } else {
        s
    }
}

/// The bytes of one record: `"[" + level padded to five + "]: " + message + "\n"`.
pub open spec fn record_bytes(level: Level, message: Seq<u8>) -> Seq<u8> {
    seq![0x5bu8] + pad_right(level_name(level), LEVEL_WIDTH as nat) + seq![0x5du8, 0x3au8, 0x20u8]
        + message + seq![0x0au8]
}

/// Relies on log::Level::as_str: the name of each level, "ERROR", "WARN", "INFO",
/// "DEBUG" or "TRACE", as bytes.
#[verifier::external_body]
fn level_name_bytes(level: Level) -> (r: &'static [u8])
    ensures
        r@ == level_name(level),
{
    let level = match level {
        Level::Error => log::Level::Error,
        Level::Warn => log::Level::Warn,
        Level::Info => log::Level::Info,
        Level::Debug => log::Level::Debug,
        Level::Trace => log::Level::Trace,
    };
    level.as_str().as_bytes()
}

/// Appends `bytes` to `out`, in order.
fn push_all(out: &mut Vec<u8>, bytes: &[u8])
    ensures
        final(out)@ == old(out)@ + bytes@,
{
    let ghost start = out@;
    let mut i: usize = 0;
    while i < bytes.len()
        invariant
            i <= bytes@.len(),
            out@ == start + bytes@.subrange(0, i as int),
        decreases bytes@.len() - i,
    {
        out.push(bytes[i]);
        i = i + 1;
        assert(out@ =~= start + bytes@.subrange(0, i as int));
    }
    assert(bytes@.subrange(0, i as int) =~= bytes@);
}

/// Formats a record as it appears on the debug channel: the level left-aligned in a
/// field of five, then the message and a newline.
pub fn format_record(level: Level, message: &str) -> (r: Vec<u8>)
    ensures
        r@ == record_bytes(level, message.spec_bytes()),
{
    let mut out: Vec<u8> = Vec::new();
    out.push(0x5b);
    let name = level_name_bytes(level);
    push_all(&mut out, name);
    let ghost named = out@;
    let mut n: usize = name.len();
    while n < LEVEL_WIDTH
        invariant
            name@.len() <= n <= LEVEL_WIDTH,
            out@ == named + Seq::new((n - name@.len()) as nat, |_i: int| 0x20u8),
        decreases LEVEL_WIDTH - n,
    {
        out.push(0x20);
        n = n + 1;
        assert(out@ =~= named + Seq::new((n - name@.len()) as nat, |_i: int| 0x20u8));
    }
    out.push(0x5d);
    out.push(0x3a);
    out.push(0x20);
    push_all(&mut out, message.as_bytes());
    out.push(0x0a);
    proof {
        let pad = Seq::new((LEVEL_WIDTH - name@.len()) as nat, |_i: int| 0x20u8);
        assert(pad_right(level_name(level), LEVEL_WIDTH as nat) =~= name@ + pad);
        assert(out@ =~= record_bytes(level, message.spec_bytes()));
    }
    out
}

/// The bytes that a sequence of records leaves on the debug channel, each record
/// written whole and in order.
pub open spec fn stream(records: Seq<(Level, Seq<u8>)>) -> Seq<u8>
    decreases records.len(),
{
    if records.len() == 0 {
        Seq::empty()
    } else {
        stream(records.drop_last()) + record_bytes(records.last().0, records.last().1)
    }
}

/// Writing one more record leaves what was there and appends that record.
pub proof fn lemma_stream_push(records: Seq<(Level, Seq<u8>)>, level: Level, message: Seq<u8>)
    ensures
        stream(records.push((level, message))) == stream(records) + record_bytes(level, message),
{
    assert(records.push((level, message)).drop_last() =~= records);
}

/// Records never interleave: in the stream of any sequence of records, the bytes of
/// record `i` stand together, right after those of the records before it and right
/// before those of the records after it.
pub proof fn lemma_records_contiguous(records: Seq<(Level, Seq<u8>)>, i: int)
    requires
        0 <= i < records.len(),
    ensures
        stream(records) == stream(records.take(i)) + record_bytes(records[i].0, records[i].1)
            + stream_tail(records, i + 1),
    decreases records.len(),
{
    if i == records.len() - 1 {
        assert(records.take(i) =~= records.drop_last());
        lemma_stream_tail_empty(records);
    } else {
        let prefix = records.drop_last();
        lemma_records_contiguous(prefix, i);
        assert(prefix.take(i) =~= records.take(i));
        lemma_stream_tail_push(records, i + 1);
        assert(stream(records) == stream(prefix) + record_bytes(records.last().0, records.last().1));
        assert(stream_tail(records, i + 1) == stream_tail(prefix, i + 1) + record_bytes(
            records.last().0,
            records.last().1,
        ));
    }
}

/// The bytes of the records from position `from` on.
pub open spec fn stream_tail(records: Seq<(Level, Seq<u8>)>, from: int) -> Seq<u8> {
    stream(records.subrange(from, records.len() as int))
}

proof fn lemma_stream_tail_empty(records: Seq<(Level, Seq<u8>)>)
    ensures
        stream_tail(records, records.len() as int) == Seq::<u8>::empty(),
{
    assert(records.subrange(records.len() as int, records.len() as int).len() == 0);
}

proof fn lemma_stream_tail_push(records: Seq<(Level, Seq<u8>)>, from: int)
    requires
        0 <= from < records.len(),
    ensures
        stream_tail(records, from) == stream_tail(records.drop_last(), from) + record_bytes(
            records.last().0,
            records.last().1,
        ),
{
    let tail = records.subrange(from, records.len() as int);
    assert(tail.drop_last() =~= records.drop_last().subrange(from, records.len() - 1));
    assert(tail.last() == records.last());
}

} // verus!
