//! Job identifiers: one token that packs the server agent, the block height,
//! the epoch number and the server id.

use crate::utils::hexstr;
use crate::utils::hexstr::{hex_decode, hex_encode, hex_value, lemma_hex_roundtrip};
use crate::utils::text::{find_char, is_first, lemma_first_index, split_first};
use vstd::prelude::*;
use vstd::string::{StrSliceExecFns, StringExecFns};

verus! {

/// The four bytes of `x`, least significant first.
pub open spec fn le_bytes(x: u32) -> Seq<u8> {
    seq![
        (x % 256) as u8,
        (x / 256 % 256) as u8,
        (x / 65536 % 256) as u8,
        (x / 16777216) as u8,
    ]
}

/// The number whose little-endian bytes are `b`.
pub open spec fn le_value(b: Seq<u8>) -> int {
    b[0] as int + 256 * (b[1] as int) + 65536 * (b[2] as int) + 16777216 * (b[3] as int)
}

/// The eight hexadecimal digits that stand for `x` in a job id.
pub open spec fn hex_le(x: u32) -> Seq<char> {
    hex_encode(le_bytes(x))
}

/// The number that a segment of a job id spells: eight hexadecimal digits,
/// read as four little-endian bytes.
pub open spec fn hex_le_value(text: Seq<char>) -> Option<u32> {
    match hex_decode(text) {
        Some(b) => if b.len() == 4 {
            Some(le_value(b) as u32)
        } else {
            None
        },
        None => None,
    }
}

/// The job id for the given parts.
pub open spec fn job_id_text(
    server_agent: Seq<char>,
    block_height: u32,
    epoch_num: u32,
    server_id: Seq<char>,
) -> Seq<char> {
    server_agent + seq!['/'] + hex_le(block_height) + seq!['_'] + hex_le(epoch_num) + seq!['_']
        + server_id
}

/// The parts of a job id. The server agent is what precedes the first `/`
/// and must not be empty. What follows must consist of exactly three
/// segments separated by `_`: the height, the epoch number, the server id.
pub open spec fn job_id_parts(text: Seq<char>) -> Option<(Seq<char>, u32, u32, Seq<char>)> {
    match split_first(text, '/') {
        None => None,
        Some((agent, rest)) => match split_first(rest, '_') {
            None => None,
            Some((height, rest)) => match split_first(rest, '_') {
                None => None,
                Some((epoch, server_id)) => match (hex_le_value(height), hex_le_value(epoch)) {
                    (Some(h), Some(e)) => if agent.len() > 0 && !server_id.contains('_') {
                        Some((agent, h, e, server_id))
                    } else {
                        None
                    },
                    _ => None,
                },
            },
        },
    }
}

/// A string that is no job id.
#[derive(Clone, Copy, Debug, PartialEq, Eq)]
pub struct InvalidJobId;

impl InvalidJobId {
    /// The text of the error.
    pub fn message(&self) -> (text: &'static str)
        ensures
            text@ == "Invalid job_id"@,
    {
        "Invalid job_id"
    }
}

fn le_bytes_of(x: u32) -> (bytes: Vec<u8>)
    ensures
        bytes@ == le_bytes(x),
{
    let mut bytes: Vec<u8> = Vec::new();
    bytes.push((x % 256) as u8);
    bytes.push((x / 256 % 256) as u8);
    bytes.push((x / 65536 % 256) as u8);
    bytes.push((x / 16777216) as u8);
    assert(bytes@ =~= le_bytes(x));
    bytes
}

fn hex_le_of(x: u32) -> (text: String)
    ensures
        text@ == hex_le(x),
{
    let bytes = le_bytes_of(x);
    hexstr::encode(bytes.as_slice())
}

fn hex_le_value_of(text: &str) -> (value: Option<u32>)
    ensures
        value == hex_le_value(text@),
{
    match hexstr::decode(text) {
        Some(bytes) => {
            if bytes.len() != 4 {
                return None;
            }
            let b0: u32 = bytes[0] as u32;
            let b1: u32 = bytes[1] as u32;
            let b2: u32 = bytes[2] as u32;
            let b3: u32 = bytes[3] as u32;
            Some(b0 + 256 * b1 + 65536 * b2 + 16777216 * b3)
        },
        None => None,
    }
}

/// Packs the server agent, the block height, the epoch number and the server
/// id into a job id.
#[must_use]
pub fn new_job_id(server_agent: String, block_height: u32, epoch_num: u32, server_id: String) -> (job_id:
    String)
    ensures
        job_id@ == job_id_text(server_agent@, block_height, epoch_num, server_id@),
{
    proof {
        reveal_strlit("/");
        reveal_strlit("_");
    }
    let height = hex_le_of(block_height);
    let epoch = hex_le_of(epoch_num);
    let mut job_id = server_agent;
    job_id.append("/");
    assert("/"@ =~= seq!['/']);
    job_id.append(height.as_str());
    job_id.append("_");
    assert("_"@ =~= seq!['_']);
    job_id.append(epoch.as_str());
    job_id.append("_");
    job_id.append(server_id.as_str());
    job_id
}

/// Reads a job id back into server agent, block height, epoch number and
/// server id.
pub fn get_height_and_epoch_num(job_id: String) -> (parts: Result<
    (String, u32, u32, String),
    InvalidJobId,
>)
    ensures
        match job_id_parts(job_id@) {
            Some((agent, height, epoch, server_id)) => parts matches Ok(p) && p.0@ == agent && p.1
                == height && p.2 == epoch && p.3@ == server_id,
            None => parts is Err,
        },
{
    let text = job_id.as_str();
    let len = text.unicode_len();
    let slash = match find_char(text, '/') {
        Some(i) => i,
        None => { return Err(InvalidJobId); },
    };
    proof {
        lemma_first_index(text@, '/', slash as int);
    }
    let agent = text.substring_char(0, slash);
    let rest = text.substring_char(slash + 1, len);
    let rest_len = rest.unicode_len();
    let first = match find_char(rest, '_') {
        Some(i) => i,
        None => { return Err(InvalidJobId); },
    };
    proof {
        lemma_first_index(rest@, '_', first as int);
    }
    let height_text = rest.substring_char(0, first);
    let rest = rest.substring_char(first + 1, rest_len);
    let rest_len = rest.unicode_len();
    let second = match find_char(rest, '_') {
        Some(i) => i,
        None => { return Err(InvalidJobId); },
    };
    proof {
        lemma_first_index(rest@, '_', second as int);
    }
    let epoch_text = rest.substring_char(0, second);
    let server_id = rest.substring_char(second + 1, rest_len);
    let height = match hex_le_value_of(height_text) {
        Some(h) => h,
        None => { return Err(InvalidJobId); },
    };
    let epoch = match hex_le_value_of(epoch_text) {
        Some(e) => e,
        None => { return Err(InvalidJobId); },
    };
    if slash == 0 || find_char(server_id, '_').is_some() {
        return Err(InvalidJobId);
    }
    Ok((agent.to_owned(), height, epoch, server_id.to_owned()))
}

/// Little-endian bytes spell the number they were cut from.
proof fn lemma_le_roundtrip(x: u32)
    ensures
        le_bytes(x).len() == 4,
        le_value(le_bytes(x)) == x,
{
}

/// The segment written for `x` is eight digits, holds no separator of a job
/// id, and spells `x`.
proof fn lemma_hex_le_plain(x: u32)
    ensures
        hex_le(x).len() == 8,
        !hex_le(x).contains('/'),
        !hex_le(x).contains('_'),
        hex_le_value(hex_le(x)) == Some(x),
{
    let bytes = le_bytes(x);
    lemma_le_roundtrip(x);
    hexstr::lemma_encode_is_hex(bytes);
    lemma_hex_roundtrip(bytes);
    assert(hex_value('/') is None);
    assert(hex_value('_') is None);
}

/// A text without `c`, then `c`, then anything: the split is at that `c`.
proof fn lemma_split_joined(head: Seq<char>, c: char, tail: Seq<char>)
    requires
        !head.contains(c),
    ensures
        split_first(head + seq![c] + tail, c) == Some((head, tail)),
{
    let s = head + seq![c] + tail;
    let i = head.len() as int;
    assert(s[i] == c);
    assert forall|j: int| 0 <= j < i implies s[j] != c by {
        assert(s[j] == head[j]);
        if head[j] == c {
            assert(head.contains(c));
        }
    }
    assert(is_first(s, c, i));
    lemma_first_index(s, c, i);
    assert(s.take(i) =~= head);
    assert(s.skip(i + 1) =~= tail);
}

/// Reading a job id gives back the parts it was made from, whenever the
/// server agent is not empty and holds no `/`, and the server id holds no `_`.
pub proof fn lemma_job_id_roundtrip(
    server_agent: Seq<char>,
    block_height: u32,
    epoch_num: u32,
    server_id: Seq<char>,
)
    requires
        server_agent.len() > 0,
        !server_agent.contains('/'),
        !server_id.contains('_'),
    ensures
        job_id_parts(job_id_text(server_agent, block_height, epoch_num, server_id)) == Some(
            (server_agent, block_height, epoch_num, server_id),
        ),
{
    let height = hex_le(block_height);
    let epoch = hex_le(epoch_num);
    let text = job_id_text(server_agent, block_height, epoch_num, server_id);
    let after_epoch = server_id;
    let after_height = epoch + seq!['_'] + after_epoch;
    let after_agent = height + seq!['_'] + after_height;
    lemma_hex_le_plain(block_height);
    lemma_hex_le_plain(epoch_num);
    assert(text =~= server_agent + seq!['/'] + after_agent);
    lemma_split_joined(server_agent, '/', after_agent);
    lemma_split_joined(height, '_', after_height);
    lemma_split_joined(epoch, '_', after_epoch);
}

} // verus!
