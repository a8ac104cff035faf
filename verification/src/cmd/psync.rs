//! `PSYNC replicationid offset`: a replica asks the master to synchronise.

use vstd::prelude::*;

use crate::config::{Config, ConfigState, ReplicationState};
use crate::error::{Error, SpecError, command_error, result_view};
use crate::frame::{Frame, SpecFrame, bulk_text, frames_view, lemma_frames_view_ext};
use crate::parse::{Parse, read_int, read_string, skip_field};
use crate::text::{dec_chars, int_chars, lemma_int_text_roundtrip, int_to_string, push_decimal, str_eq, string_into_bytes};

verus! {

/// `PSYNC`: the replication id and offset a replica knows of.
#[derive(Debug, PartialEq, Eq)]
pub struct PSync {
    replicationid: String,
    offset: i64,
}

impl View for PSync {
    type V = (Seq<char>, i64);

    closed spec fn view(&self) -> (Seq<char>, i64) {
        (self.replicationid@, self.offset)
    }
}

/// Reading the fields of `PSYNC`: a text, then a number. The result and the
/// fields left over.
pub open spec fn read_psync(parts: Seq<SpecFrame>) -> (Result<(Seq<char>, i64), SpecError>, Seq<SpecFrame>) {
    match read_string(parts) {
        Err(e) => (Err(command_error(e)), skip_field(parts)),
        Ok(id) => {
            let rest = skip_field(parts);
            match read_int(rest) {
                Err(e) => (Err(command_error(e)), skip_field(rest)),
                Ok(offset) => (Ok((id, offset)), skip_field(rest)),
            }
        },
    }
}

/// The frame a client sends for `PSYNC`.
pub open spec fn psync_frame(p: (Seq<char>, i64)) -> SpecFrame {
    SpecFrame::Array(seq![bulk_text("psync"@), bulk_text(p.0), bulk_text(int_chars(p.1 as int))])
}

/// The first reply to `PSYNC`: `FULLRESYNC <replication id> <offset>`.
pub open spec fn fullresync_text(replid: Seq<char>, offset: usize) -> Seq<char> {
    "FULLRESYNC "@ + replid + " "@ + dec_chars(offset as nat)
}

/// The snapshot the master sends with a full resynchronisation: an empty RDB file.
pub open spec fn empty_rdb() -> Seq<u8> {
    seq![
        0x52u8, 0x45, 0x44, 0x49, 0x53, 0x30, 0x30, 0x31, 0x31, 0xfa, 0x09, 0x72, 0x65, 0x64, 0x69, 0x73,
        0x2d, 0x76, 0x65, 0x72, 0x05, 0x37, 0x2e, 0x32, 0x2e, 0x30, 0xfa, 0x0a, 0x72, 0x65, 0x64, 0x69,
        0x73, 0x2d, 0x62, 0x69, 0x74, 0x73, 0xc0, 0x40, 0xfa, 0x05, 0x63, 0x74, 0x69, 0x6d, 0x65, 0xc2,
        0x6d, 0x08, 0xbc, 0x65, 0xfa, 0x08, 0x75, 0x73, 0x65, 0x64, 0x2d, 0x6d, 0x65, 0x6d, 0xc2, 0xb0,
        0xc4, 0x10, 0x00, 0xfa, 0x08, 0x61, 0x6f, 0x66, 0x2d, 0x62, 0x61, 0x73, 0x65, 0xc0, 0x00, 0xff,
        0xf0, 0x6e, 0x3b, 0xfe, 0xc0, 0xff, 0x5a, 0xa2,
    ]
}

/// The bytes of an empty RDB file.
pub fn empty_rdb_file() -> (v: Vec<u8>)
    ensures
        v@ == empty_rdb(),
{
    let v: Vec<u8> = vec![
        0x52u8, 0x45, 0x44, 0x49, 0x53, 0x30, 0x30, 0x31, 0x31, 0xfa, 0x09, 0x72, 0x65, 0x64, 0x69, 0x73,
        0x2d, 0x76, 0x65, 0x72, 0x05, 0x37, 0x2e, 0x32, 0x2e, 0x30, 0xfa, 0x0a, 0x72, 0x65, 0x64, 0x69,
        0x73, 0x2d, 0x62, 0x69, 0x74, 0x73, 0xc0, 0x40, 0xfa, 0x05, 0x63, 0x74, 0x69, 0x6d, 0x65, 0xc2,
        0x6d, 0x08, 0xbc, 0x65, 0xfa, 0x08, 0x75, 0x73, 0x65, 0x64, 0x2d, 0x6d, 0x65, 0x6d, 0xc2, 0xb0,
        0xc4, 0x10, 0x00, 0xfa, 0x08, 0x61, 0x6f, 0x66, 0x2d, 0x62, 0x61, 0x73, 0x65, 0xc0, 0x00, 0xff,
        0xf0, 0x6e, 0x3b, 0xfe, 0xc0, 0xff, 0x5a, 0xa2,
    ];
    assert(v@ =~= empty_rdb());
    v
}

/// Whether a `PSYNC` asks for a first synchronisation (`PSYNC ? -1`).
pub open spec fn is_first_sync(p: (Seq<char>, i64)) -> bool {
    p.0 == "?"@ && p.1 == -1
}

impl PSync {
    /// A `PSYNC` for the given replication id and offset.
    pub fn new(replicationid: String, offset: i64) -> (p: PSync)
        ensures
            p@ == (replicationid@, offset),
    {
        PSync { replicationid, offset }
    }

    /// Reads the fields of a `PSYNC` frame after the command name: the
    /// replication id, then the offset.
    pub fn parse_frames(parse: &mut Parse) -> (r: Result<PSync, Error>)
        ensures
            result_view(r) == read_psync(old(parse)@).0,
            final(parse)@ == read_psync(old(parse)@).1,
    {
        let replicationid = match parse.next_string() {
            Ok(s) => s,
            Err(e) => return Err(e.into_error()),
        };
        let offset = match parse.next_int() {
            Ok(v) => v,
            Err(e) => return Err(e.into_error()),
        };
        Ok(PSync::new(replicationid, offset))
    }

    /// Answers a `PSYNC`: a first synchronisation (`PSYNC ? -1`) resets the
    /// second replication offset to 0; then the master replies
    /// `FULLRESYNC <replication id> <offset>` and sends an empty RDB file.
    /// The frames are returned in the order they are sent.
    pub fn apply(self, config: &mut Config) -> (replies: Vec<Frame>)
        ensures
            final(config)@ == (if is_first_sync(self@) {
                ConfigState {
                    replication: ReplicationState { second_repl_offset: 0, ..old(config)@.replication },
                    ..old(config)@
                }
            } else {
                old(config)@
            }),
            frames_view(replies@) == seq![
                SpecFrame::Simple(
                    fullresync_text(
                        old(config)@.replication.master_replid,
                        old(config)@.replication.master_repl_offset,
                    ),
                ),
                SpecFrame::File(empty_rdb()),
            ],
    {
        if str_eq(self.replicationid.as_str(), "?") && self.offset == -1 {
            config.set_second_repl_offset(0);
        }
        let (replicationid, offset) = config.master_replid_and_offset();
        let mut line = String::from_str("FULLRESYNC ");
        line.append(replicationid.as_str());
        line.append(" ");
        push_decimal(&mut line, offset as u64);
        let mut replies: Vec<Frame> = Vec::new();
        replies.push(Frame::Simple(line));
        replies.push(Frame::File(empty_rdb_file()));
        proof {
            lemma_frames_view_ext(
                replies@,
                seq![
                    SpecFrame::Simple(
                        fullresync_text(
                            old(config)@.replication.master_replid,
                            old(config)@.replication.master_repl_offset,
                        ),
                    ),
                    SpecFrame::File(empty_rdb()),
                ],
            );
        }
        replies
    }

    /// The frame a client sends for this `PSYNC`.
    pub fn into_frame(self) -> (f: Frame)
        ensures
            f@ == psync_frame(self@),
    {
        let mut frame = Frame::array();
        frame.push_bulk(vstd::slice::slice_to_vec("psync".as_bytes()));
        frame.push_bulk(string_into_bytes(self.replicationid));
        frame.push_bulk(string_into_bytes(int_to_string(self.offset)));
        assert(frame@->Array_0 =~= psync_frame(self@)->Array_0);
        frame
    }
}

impl Default for PSync {
    /// A `PSYNC` of the empty replication id and offset 0.
    fn default() -> (p: PSync)
        ensures
            p@ == (Seq::<char>::empty(), 0i64),
    {
        PSync { replicationid: String::new(), offset: 0 }
    }
}

/// What a client sends for a `PSYNC` the server reads back as the same
/// `PSYNC`, with no field left over.
pub proof fn lemma_psync_roundtrip(p: (Seq<char>, i64))
    ensures
        read_psync(psync_frame(p)->Array_0.drop_first()) == (Ok::<_, SpecError>(p), Seq::<SpecFrame>::empty()),
{
    broadcast use vstd::utf8::encode_utf8_valid_utf8, vstd::utf8::encode_utf8_decode_utf8;

    lemma_int_text_roundtrip(p.1);
    let fields = psync_frame(p)->Array_0.drop_first();
    assert(fields[0] == bulk_text(p.0));
    assert(skip_field(fields)[0] == bulk_text(int_chars(p.1 as int)));
    assert(skip_field(skip_field(fields)) =~= Seq::<SpecFrame>::empty());
}

/// The snapshot sent with a full resynchronisation is this well-formed empty
/// RDB file of 88 bytes: the magic `REDIS` and version `0011`, auxiliary
/// fields (`redis-ver` 7.2.0, `redis-bits` 64, `ctime`, `used-mem`,
/// `aof-base` 0), the end-of-file opcode 0xff at byte 79, and the 8-byte
/// checksum.
pub proof fn lemma_empty_rdb()
    ensures
        empty_rdb().len() == 88,
        empty_rdb().subrange(0, 9) == seq![0x52u8, 0x45, 0x44, 0x49, 0x53, 0x30, 0x30, 0x31, 0x31],
        empty_rdb()[79] == 0xffu8,
        empty_rdb().subrange(80, 88) == seq![0xf0u8, 0x6e, 0x3b, 0xfe, 0xc0, 0xff, 0x5a, 0xa2],
        empty_rdb() == seq![
            0x52u8, 0x45, 0x44, 0x49, 0x53, 0x30, 0x30, 0x31,
            0x31, 0xfa, 0x09, 0x72, 0x65, 0x64, 0x69, 0x73,
            0x2d, 0x76, 0x65, 0x72, 0x05, 0x37, 0x2e, 0x32,
            0x2e, 0x30, 0xfa, 0x0a, 0x72, 0x65, 0x64, 0x69,
            0x73, 0x2d, 0x62, 0x69, 0x74, 0x73, 0xc0, 0x40,
            0xfa, 0x05, 0x63, 0x74, 0x69, 0x6d, 0x65, 0xc2,
            0x6d, 0x08, 0xbc, 0x65, 0xfa, 0x08, 0x75, 0x73,
            0x65, 0x64, 0x2d, 0x6d, 0x65, 0x6d, 0xc2, 0xb0,
            0xc4, 0x10, 0x00, 0xfa, 0x08, 0x61, 0x6f, 0x66,
            0x2d, 0x62, 0x61, 0x73, 0x65, 0xc0, 0x00, 0xff,
            0xf0, 0x6e, 0x3b, 0xfe, 0xc0, 0xff, 0x5a, 0xa2,
        ],
{
    assert(empty_rdb().subrange(0, 9) =~= seq![0x52u8, 0x45, 0x44, 0x49, 0x53, 0x30, 0x30, 0x31, 0x31]);
    assert(empty_rdb().subrange(80, 88) =~= seq![0xf0u8, 0x6e, 0x3b, 0xfe, 0xc0, 0xff, 0x5a, 0xa2]);
}

} // verus!
