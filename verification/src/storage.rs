//! What leaves the process: the normalized flow-log value, the
//! aggregation configuration, and the header-less tabular encoding of
//! a closed batch, one comma-separated record per line, together with
//! the name of the file a batch is archived under.

use vstd::prelude::*;

use crate::addr::{spec_addr_text, spec_dec_bytes, push_dec_u64, Addr};

verus! {

/// Configuration of the aggregation pipeline, immutable after
/// startup: the count bound of a batch, the flush interval in
/// seconds, and the bucket batches are archived in.
pub struct Config {
    pub max_packets_per_log: usize,
    pub packet_log_interval: u64,
    pub storage_bucket: String,
}

/// One flow-log value, normalized by the collector from a wire
/// record and never mutated afterwards: addresses in host form, the
/// ports, the transport protocol, the action taken, and the capture
/// timestamp assigned at decode time.
#[derive(Clone, Copy, Debug, PartialEq, Eq, Structural)]
pub struct FlowLog {
    pub src: Addr,
    pub dst: Addr,
    pub src_port: u16,
    pub dst_port: u16,
    pub l3_protocol: u8,
    pub action: u32,
    pub timestamp: u64,
}

/// One serialized record: the fields of [`FlowLog`] in declaration
/// order, comma-separated, closed by a newline; addresses in their
/// textual form, numbers in decimal.
pub open spec fn spec_csv_line(log: FlowLog) -> Seq<u8> {
    spec_addr_text(log.src) + seq![44u8] + spec_addr_text(log.dst) + seq![44u8] + spec_dec_bytes(
        log.src_port as nat,
    ) + seq![44u8] + spec_dec_bytes(log.dst_port as nat) + seq![44u8] + spec_dec_bytes(
        log.l3_protocol as nat,
    ) + seq![44u8] + spec_dec_bytes(log.action as nat) + seq![44u8] + spec_dec_bytes(
        log.timestamp as nat,
    ) + seq![10u8]
}

/// One serialized batch: the lines of its records in order, with no
/// header row.
pub open spec fn spec_csv_batch(logs: Seq<FlowLog>) -> Seq<u8>
    decreases logs.len(),
{
    if logs.len() == 0 {
        Seq::empty()
    } else {
        spec_csv_batch(logs.drop_last()) + spec_csv_line(logs.last())
    }
}

/// Appends one record's line to `out`.
pub fn push_csv_line(out: &mut Vec<u8>, log: &FlowLog)
    ensures
        final(out)@ == old(out)@ + spec_csv_line(*log),
{
    log.src.push_text(out);
    out.push(44);
    log.dst.push_text(out);
    out.push(44);
    push_dec_u64(out, log.src_port as u64);
    out.push(44);
    push_dec_u64(out, log.dst_port as u64);
    out.push(44);
    push_dec_u64(out, log.l3_protocol as u64);
    out.push(44);
    push_dec_u64(out, log.action as u64);
    out.push(44);
    push_dec_u64(out, log.timestamp);
    out.push(10);
    proof {
        assert(out@ =~= old(out)@ + spec_csv_line(*log));
    }
}

/// Serializes a closed batch: exactly the bytes of
/// [`spec_csv_batch`], so equal batches always serialize to
/// byte-identical output.
pub fn serialize_batch(logs: &Vec<FlowLog>) -> (out: Vec<u8>)
    ensures
        out@ == spec_csv_batch(logs@),
{
    let mut out: Vec<u8> = Vec::new();
    let mut i: usize = 0;
    while i < logs.len()
        invariant
            i <= logs@.len(),
            out@ == spec_csv_batch(logs@.take(i as int)),
        decreases logs@.len() - i,
    {
        push_csv_line(&mut out, &logs[i]);
        proof {
            assert(logs@.take(i + 1).drop_last() =~= logs@.take(i as int));
            assert(logs@.take(i + 1).last() == logs@[i as int]);
        }
        i = i + 1;
    }
    proof {
        assert(logs@.take(logs@.len() as int) =~= logs@);
    }
    out
}

/// Serialization is a function of the batch alone: re-serializing the
/// same batch, at any time, yields byte-identical output.
pub proof fn lemma_serialize_deterministic(batch1: Seq<FlowLog>, batch2: Seq<FlowLog>)
    requires
        batch1 == batch2,
    ensures
        spec_csv_batch(batch1) == spec_csv_batch(batch2),
{
}

/// One decimal digit as a character.
pub open spec fn spec_digit_char(d: nat) -> char {
    if d == 0 {
        '0'
    } else if d == 1 {
        '1'
    } else if d == 2 {
        '2'
    } else if d == 3 {
        '3'
    } else if d == 4 {
        '4'
    } else if d == 5 {
        '5'
    } else if d == 6 {
        '6'
    } else if d == 7 {
        '7'
    } else if d == 8 {
        '8'
    } else {
        '9'
    }
}

/// The decimal digits of `n` as characters, most significant first,
/// with no leading zeros.
pub open spec fn spec_dec_chars(n: nat) -> Seq<char>
    decreases n,
{
    if n < 10 {
        seq![spec_digit_char(n)]
    } else {
        spec_dec_chars(n / 10).push(spec_digit_char(n % 10))
    }
}

/// One decimal digit as a string slice.
fn digit_str(d: u64) -> (r: &'static str)
    requires
        d < 10,
    ensures
        r@ == seq![spec_digit_char(d as nat)],
{
    if d == 0 {
        proof {
            reveal_strlit("0");
        }
        let s = "0";
        proof {
            assert(s@ =~= seq![spec_digit_char(d as nat)]);
        }
        s
    } else if d == 1 {
        proof {
            reveal_strlit("1");
        }
        let s = "1";
        proof {
            assert(s@ =~= seq![spec_digit_char(d as nat)]);
        }
        s
    } else if d == 2 {
        proof {
            reveal_strlit("2");
        }
        let s = "2";
        proof {
            assert(s@ =~= seq![spec_digit_char(d as nat)]);
        }
        s
    } else if d == 3 {
        proof {
            reveal_strlit("3");
        }
        let s = "3";
        proof {
            assert(s@ =~= seq![spec_digit_char(d as nat)]);
        }
        s
    } else if d == 4 {
        proof {
            reveal_strlit("4");
        }
        let s = "4";
        proof {
            assert(s@ =~= seq![spec_digit_char(d as nat)]);
        }
        s
    } else if d == 5 {
        proof {
            reveal_strlit("5");
        }
        let s = "5";
        proof {
            assert(s@ =~= seq![spec_digit_char(d as nat)]);
        }
        s
    } else if d == 6 {
        proof {
            reveal_strlit("6");
        }
        let s = "6";
        proof {
            assert(s@ =~= seq![spec_digit_char(d as nat)]);
        }
        s
    } else if d == 7 {
        proof {
            reveal_strlit("7");
        }
        let s = "7";
        proof {
            assert(s@ =~= seq![spec_digit_char(d as nat)]);
        }
        s
    } else if d == 8 {
        proof {
            reveal_strlit("8");
        }
        let s = "8";
        proof {
            assert(s@ =~= seq![spec_digit_char(d as nat)]);
        }
        s
    } else {
        proof {
            reveal_strlit("9");
        }
        let s = "9";
        proof {
            assert(s@ =~= seq![spec_digit_char(d as nat)]);
        }
        s
    }
}

/// Appends the decimal digits of `n` to a string.
pub fn push_dec_chars(s: &mut String, n: u64)
    ensures
        final(s)@ == old(s)@ + spec_dec_chars(n as nat),
    decreases n,
{
    if n < 10 {
        s.append(digit_str(n));
        proof {
            assert(s@ =~= old(s)@ + spec_dec_chars(n as nat));
        }
    } else {
        push_dec_chars(s, n / 10);
        s.append(digit_str(n % 10));
        proof {
            assert(s@ =~= old(s)@ + spec_dec_chars(n as nat));
        }
    }
}

/// The name a batch is archived under, derived from its close time:
/// the Unix seconds in decimal, with the tabular-format suffix.
pub fn batch_filename(timestamp: u64) -> (name: String)
    ensures
        name@ == spec_dec_chars(timestamp as nat) + ".csv"@,
{
    let mut name = String::new();
    push_dec_chars(&mut name, timestamp);
    name.append(".csv");
    proof {
        assert(name@ =~= spec_dec_chars(timestamp as nat) + ".csv"@);
    }
    name
}

} // verus!
