//! `REPLCONF [key value ...]`: a replica tells the master about itself.

use vstd::prelude::*;
use vstd::utf8::*;

use crate::error::{Error, ParseError, SpecError, result_view};
use crate::frame::{Frame, SpecFrame, bulk_text};
use crate::parse::{Parse, bytes_field, string_field, with_prefix};
use crate::text::string_into_bytes;

verus! {

/// Replication settings a replica sends to its master, as key-value pairs.
#[derive(Debug, PartialEq, Eq)]
pub struct ReplConf {
    pairs: Option<Vec<(String, Vec<u8>)>>,
}

/// The values of a sequence of key-value pairs.
pub open spec fn pair_seqs(v: Seq<(String, Vec<u8>)>) -> Seq<(Seq<char>, Seq<u8>)> {
    v.map_values(|p: (String, Vec<u8>)| (p.0@, p.1@))
}

impl View for ReplConf {
    /// The pairs, if a list of them is kept.
    type V = Option<Seq<(Seq<char>, Seq<u8>)>>;

    closed spec fn view(&self) -> Option<Seq<(Seq<char>, Seq<u8>)>> {
        match self.pairs {
            Some(v) => Some(pair_seqs(v@)),
            None => None,
        }
    }
}

/// Reading key-value pairs until no field is left: a key is a text, a value
/// is bytes; a key with no value after it ends the read and is dropped, and
/// a field of the wrong kind stops the read with its error. The result and
/// the fields left over.
pub open spec fn read_pairs(parts: Seq<SpecFrame>) -> (Result<Seq<(Seq<char>, Seq<u8>)>, SpecError>, Seq<SpecFrame>)
    decreases parts.len(),
{
    if parts.len() == 0 {
        (Ok(Seq::empty()), parts)
    } else {
        match string_field(parts[0]) {
            Err(e) => (Err(e), parts.drop_first()),
            Ok(key) => if parts.len() == 1 {
                (Ok(Seq::empty()), parts.drop_first())
            } else {
                match bytes_field(parts[1]) {
                    Err(e) => (Err(e), parts.drop_first().drop_first()),
                    Ok(value) => {
                        let rest = read_pairs(parts.drop_first().drop_first());
                        (with_prefix(seq![(key, value)], rest.0), rest.1)
                    },
                }
            },
        }
    }
}

/// Reading the fields of `REPLCONF`: the list of pairs.
pub open spec fn read_replconf(parts: Seq<SpecFrame>) -> (Result<Option<Seq<(Seq<char>, Seq<u8>)>>, SpecError>, Seq<SpecFrame>) {
    (
        match read_pairs(parts).0 {
            Ok(s) => Ok(Some(s)),
            Err(e) => Err(e),
        },
        read_pairs(parts).1,
    )
}

/// The fields that carry a sequence of pairs: each key, then its value.
pub open spec fn pair_fields(p: Seq<(Seq<char>, Seq<u8>)>) -> Seq<SpecFrame>
    decreases p.len(),
{
    if p.len() == 0 {
        Seq::empty()
    } else {
        seq![bulk_text(p[0].0), SpecFrame::Bulk(p[0].1)] + pair_fields(p.drop_first())
    }
}

/// The frame a client sends for `REPLCONF`.
pub open spec fn replconf_frame(pairs: Option<Seq<(Seq<char>, Seq<u8>)>>) -> SpecFrame {
    SpecFrame::Array(
        seq![bulk_text("replconf"@)] + match pairs {
            Some(p) => pair_fields(p),
            None => Seq::empty(),
        },
    )
}

proof fn lemma_pair_fields_push(a: Seq<(Seq<char>, Seq<u8>)>, x: (Seq<char>, Seq<u8>))
    ensures
        pair_fields(a.push(x)) == pair_fields(a) + seq![bulk_text(x.0), SpecFrame::Bulk(x.1)],
    decreases a.len(),
{
    if a.len() == 0 {
        assert(a.push(x).drop_first() =~= a);
        assert(pair_fields(a.push(x)) =~= seq![bulk_text(x.0), SpecFrame::Bulk(x.1)]);
    } else {
        assert(a.push(x).drop_first() =~= a.drop_first().push(x));
        lemma_pair_fields_push(a.drop_first(), x);
        assert(a.push(x)[0] == a[0]);
        assert(pair_fields(a.push(x)) =~= pair_fields(a) + seq![bulk_text(x.0), SpecFrame::Bulk(x.1)]);
    }
}

impl ReplConf {
    /// A `REPLCONF` with the given pairs.
    pub fn new(pairs: Vec<(String, Vec<u8>)>) -> (r: ReplConf)
        ensures
            r@ == Some(pair_seqs(pairs@)),
    {
        ReplConf { pairs: Some(pairs) }
    }

    /// Reads the fields of a `REPLCONF` frame after the command name: pairs
    /// of a key and a value, until no field is left.
    pub fn parse_frames(parse: &mut Parse) -> (r: Result<ReplConf, Error>)
        ensures
            result_view(r) == read_replconf(old(parse)@).0,
            final(parse)@ == read_replconf(old(parse)@).1,
    {
        let ghost start = parse@;
        let mut pairs: Vec<(String, Vec<u8>)> = Vec::new();
        loop
            invariant
                start == old(parse)@,
                read_pairs(start).1 == read_pairs(parse@).1,
                read_pairs(start).0 == with_prefix(pair_seqs(pairs@), read_pairs(parse@).0),
            ensures
                read_pairs(start).1 == parse@,
                read_pairs(start).0 == Ok::<_, SpecError>(pair_seqs(pairs@)),
            decreases parse@.len(),
        {
            let ghost before = parse@;
            let ghost collected = pairs@;
            let key = match parse.next_string() {
                Ok(key) => key,
                Err(ParseError::EndOfStream) => {
                    assert(pair_seqs(collected) + Seq::empty() =~= pair_seqs(collected));
                    break;
                },
                Err(ParseError::Other(e)) => {
                    assert(read_pairs(before) == (Err::<Seq<(Seq<char>, Seq<u8>)>, SpecError>(e@), parse@));
                    return Err(e);
                },
            };
            let value = match parse.next_bytes() {
                Ok(value) => value,
                Err(ParseError::EndOfStream) => {
                    assert(read_pairs(before) == (Ok::<_, SpecError>(Seq::<(Seq<char>, Seq<u8>)>::empty()), parse@));
                    assert(pair_seqs(collected) + Seq::empty() =~= pair_seqs(collected));
                    break;
                },
                Err(ParseError::Other(e)) => {
                    assert(read_pairs(before) == (Err::<Seq<(Seq<char>, Seq<u8>)>, SpecError>(e@), parse@));
                    return Err(e);
                },
            };
            pairs.push((key, value));
            proof {
                assert(parse@ == before.drop_first().drop_first());
                assert(pair_seqs(pairs@) =~= pair_seqs(collected) + seq![(key@, value@)]);
                let rest = read_pairs(parse@).0;
                if let Ok(s) = rest {
                    assert(pair_seqs(collected) + (seq![(key@, value@)] + s) =~= pair_seqs(pairs@) + s);
                }
            }
        }
        Ok(ReplConf::new(pairs))
    }

    /// The frame to write in reply: `OK`.
    pub fn apply(self) -> (reply: Frame)
        ensures
            reply@ == SpecFrame::Simple("OK"@),
    {
        Frame::Simple(String::from_str("OK"))
    }

    /// The frame a client sends for this `REPLCONF`.
    pub fn into_frame(self) -> (f: Frame)
        ensures
            f@ == replconf_frame(self@),
    {
        let mut frame = Frame::array();
        frame.push_bulk(vstd::slice::slice_to_vec("replconf".as_bytes()));
        let ghost header = frame@->Array_0;
        match self.pairs {
            Some(pairs) => {
                let ghost all = pair_seqs(pairs@);
                assert(all.len() == pairs@.len());
                assert(pairs.len() == pairs@.len());
                let mut rest = pairs;
                let mut k: usize = 0;
                while rest.len() > 0
                    invariant
                        k <= all.len(),
                        all.len() <= usize::MAX,
                        pair_seqs(rest@) == all.skip(k as int),
                        frame@ == SpecFrame::Array(header + pair_fields(all.take(k as int))),
                    decreases rest@.len(),
                {
                    let ghost before = rest@;
                    let (key, value) = rest.remove(0);
                    assert(all.skip(k as int).len() == before.len());
                    assert((key@, value@) == all[k as int]) by {
                        assert(pair_seqs(before)[0] == (before[0].0@, before[0].1@));
                        assert(pair_seqs(before)[0] == all.skip(k as int)[0]);
                    }
                    let ghost mid = frame@->Array_0;
                    let ghost kv = (key@, value@);
                    frame.push_bulk(string_into_bytes(key));
                    frame.push_bulk(value);
                    assert(frame@->Array_0 =~= mid + seq![bulk_text(kv.0), SpecFrame::Bulk(kv.1)]);
                    assert forall|j: int| 0 <= j < rest@.len() implies #[trigger] pair_seqs(rest@)[j] == all.skip(k + 1)[j] by {
                        assert(rest@ == before.remove(0));
                        assert(rest@[j] == before[j + 1]);
                        assert(pair_seqs(before)[j + 1] == all.skip(k as int)[j + 1]);
                    }
                    assert(pair_seqs(rest@) =~= all.skip(k + 1));
                    proof {
                        assert(all.take(k + 1) =~= all.take(k as int).push(all[k as int]));
                        lemma_pair_fields_push(all.take(k as int), all[k as int]);
                        assert(header + pair_fields(all.take(k + 1)) =~= header + pair_fields(all.take(k as int))
                            + seq![bulk_text(all[k as int].0), SpecFrame::Bulk(all[k as int].1)]);
                    }
                    k = k + 1;
                }
                assert(all.take(k as int) =~= all);
            },
            None => {
                assert(header + Seq::<SpecFrame>::empty() =~= header);
            },
        }
        frame
    }
}

impl Default for ReplConf {
    /// A `REPLCONF` that keeps no list of pairs.
    fn default() -> (r: ReplConf)
        ensures
            r@ == None::<Seq<(Seq<char>, Seq<u8>)>>,
    {
        ReplConf { pairs: None }
    }
}

/// What a client sends for a `REPLCONF` with a list of pairs the server
/// reads back as the same `REPLCONF`, with no field left over.
pub proof fn lemma_replconf_roundtrip(pairs: Seq<(Seq<char>, Seq<u8>)>)
    ensures
        read_replconf(replconf_frame(Some(pairs))->Array_0.drop_first()) == (
            Ok::<_, SpecError>(Some(pairs)),
            Seq::<SpecFrame>::empty(),
        ),
{
    assert(replconf_frame(Some(pairs))->Array_0.drop_first() =~= pair_fields(pairs));
    lemma_read_pair_fields(pairs);
}

proof fn lemma_read_pair_fields(pairs: Seq<(Seq<char>, Seq<u8>)>)
    ensures
        read_pairs(pair_fields(pairs)) == (Ok::<_, SpecError>(pairs), Seq::<SpecFrame>::empty()),
    decreases pairs.len(),
{
    broadcast use encode_utf8_valid_utf8, encode_utf8_decode_utf8;

    let fields = pair_fields(pairs);
    if pairs.len() == 0 {
        assert(pairs =~= Seq::<(Seq<char>, Seq<u8>)>::empty());
    } else {
        let rest = pair_fields(pairs.drop_first());
        assert(fields[0] == bulk_text(pairs[0].0));
        assert(fields[1] == SpecFrame::Bulk(pairs[0].1));
        assert(fields.drop_first().drop_first() =~= rest);
        lemma_read_pair_fields(pairs.drop_first());
        assert(string_field(fields[0]) == Ok::<Seq<char>, SpecError>(pairs[0].0));
        assert(bytes_field(fields[1]) == Ok::<Seq<u8>, SpecError>(pairs[0].1));
        assert(seq![pairs[0]] + pairs.drop_first() =~= pairs);
        let tail = read_pairs(rest);
        assert(read_pairs(fields) == (with_prefix(seq![(pairs[0].0, pairs[0].1)], tail.0), tail.1));
    }
}

} // verus!
