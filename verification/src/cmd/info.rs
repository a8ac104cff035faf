//! `INFO [section ...]`: the server reports a part of its configuration.

use vstd::prelude::*;
use vstd::utf8::*;

use crate::config::{Config, ConfigState, replication_text, server_text};
use crate::error::{Error, ParseError, SpecError, result_view};
use crate::frame::{Frame, SpecFrame, bulk_text};
use crate::parse::{Parse, bytes_field, with_prefix};
use crate::text::{lowercase, str_eq, str_to_lowercase, string_from_utf8, string_into_bytes};

verus! {

/// Reports the sections of the server's configuration that a client asks for.
#[derive(Debug, PartialEq, Eq)]
pub struct Info {
    sections: Option<Vec<Vec<u8>>>,
}

/// The values of a sequence of byte vectors.
pub open spec fn byte_seqs(v: Seq<Vec<u8>>) -> Seq<Seq<u8>> {
    v.map_values(|b: Vec<u8>| b@)
}

impl View for Info {
    /// The sections asked for, if a list of them is kept.
    type V = Option<Seq<Seq<u8>>>;

    closed spec fn view(&self) -> Option<Seq<Seq<u8>>> {
        match self.sections {
            Some(v) => Some(byte_seqs(v@)),
            None => None,
        }
    }
}

/// Reading section names until no field is left; a field that is not bytes
/// stops the read with its error. The result and the fields left over.
pub open spec fn read_sections(parts: Seq<SpecFrame>) -> (Result<Seq<Seq<u8>>, SpecError>, Seq<SpecFrame>)
    decreases parts.len(),
{
    if parts.len() == 0 {
        (Ok(Seq::empty()), parts)
    } else {
        match bytes_field(parts[0]) {
            Err(e) => (Err(e), parts.drop_first()),
            Ok(b) => {
                let rest = read_sections(parts.drop_first());
                (with_prefix(seq![b], rest.0), rest.1)
            },
        }
    }
}

/// Reading the fields of `INFO`: the list of sections.
pub open spec fn read_info(parts: Seq<SpecFrame>) -> (Result<Option<Seq<Seq<u8>>>, SpecError>, Seq<SpecFrame>) {
    (
        match read_sections(parts).0 {
            Ok(s) => Ok(Some(s)),
            Err(e) => Err(e),
        },
        read_sections(parts).1,
    )
}

/// Bulk frames holding the given payloads, in order.
pub open spec fn bulk_frames(s: Seq<Seq<u8>>) -> Seq<SpecFrame> {
    s.map_values(|b: Seq<u8>| SpecFrame::Bulk(b))
}

/// The frame a client sends for `INFO`.
pub open spec fn info_frame(sections: Option<Seq<Seq<u8>>>) -> SpecFrame {
    SpecFrame::Array(
        seq![bulk_text("info"@)] + match sections {
            Some(s) => bulk_frames(s),
            None => Seq::empty(),
        },
    )
}

/// The reply for one section, named in lowercase: the text of the
/// replication part or of the server part of the configuration.
pub open spec fn section_reply(section: Seq<char>, config: ConfigState) -> Option<SpecFrame> {
    if section == "replication"@ {
        Some(SpecFrame::Bulk(encode_utf8(replication_text(config.replication))))
    } else if section == "server"@ {
        Some(SpecFrame::Bulk(encode_utf8(server_text(config.tcp_port))))
    } else {
        None
    }
}

/// The reply to `INFO`: defined for exactly one section, given as UTF-8 and
/// named `replication` or `server` in any case.
pub open spec fn info_reply(sections: Option<Seq<Seq<u8>>>, config: ConfigState) -> Option<SpecFrame> {
    match sections {
        Some(s) => if s.len() == 1 && valid_utf8(s[0]) {
            section_reply(lowercase(decode_utf8(s[0])), config)
        } else {
            None
        },
        None => None,
    }
}

impl Info {
    /// An `INFO` for the given sections.
    pub fn new(sections: Option<Vec<Vec<u8>>>) -> (i: Info)
        ensures
            i@ == match sections {
                Some(v) => Some(byte_seqs(v@)),
                None => None::<Seq<Seq<u8>>>,
            },
    {
        Info { sections }
    }

    /// Reads the fields of an `INFO` frame after the command name: every
    /// field left, each a section name.
    pub fn parse_frames(parse: &mut Parse) -> (r: Result<Info, Error>)
        ensures
            result_view(r) == read_info(old(parse)@).0,
            final(parse)@ == read_info(old(parse)@).1,
    {
        let ghost start = parse@;
        let mut sections: Vec<Vec<u8>> = Vec::new();
        loop
            invariant
                start == old(parse)@,
                read_sections(start).1 == read_sections(parse@).1,
                read_sections(start).0 == with_prefix(byte_seqs(sections@), read_sections(parse@).0),
            ensures
                parse@.len() == 0,
                read_sections(start).1 == parse@,
                read_sections(start).0 == Ok::<_, SpecError>(byte_seqs(sections@)),
            decreases parse@.len(),
        {
            let ghost before = parse@;
            let ghost collected = sections@;
            match parse.next_bytes() {
                Ok(section) => {
                    sections.push(section);
                    proof {
                        assert(byte_seqs(sections@) =~= byte_seqs(collected) + seq![sections@.last()@]);
                        let rest = read_sections(before.drop_first()).0;
                        if let Ok(s) = rest {
                            assert(byte_seqs(collected) + (seq![sections@.last()@] + s)
                                =~= byte_seqs(sections@) + s);
                        }
                    }
                },
                Err(ParseError::EndOfStream) => {
                    assert(byte_seqs(collected) + Seq::<Seq<u8>>::empty() =~= byte_seqs(collected));
                    break;
                },
                Err(ParseError::Other(e)) => {
                    assert(bytes_field(before[0]) == Err::<Seq<u8>, SpecError>(e@));
                    assert(read_sections(before).0 == Err::<Seq<Seq<u8>>, SpecError>(e@));
                    assert(read_sections(before).1 == parse@);
                    return Err(e);
                },
            }
        }
        Ok(Info::new(Some(sections)))
    }

    /// The reply for one section, named in lowercase.
    pub fn reply_for_section(section: &str, config: &Config) -> (reply: Frame)
        requires
            section_reply(section@, config@) is Some,
        ensures
            section_reply(section@, config@) == Some(reply@),
    {
        if str_eq(section, "replication") {
            Frame::Bulk(string_into_bytes(config.replication()))
        } else {
            Frame::Bulk(string_into_bytes(config.server()))
        }
    }

    /// The lowercase name of the section asked for, where exactly one is
    /// asked for and its name is valid UTF-8.
    fn requested_section(&self) -> (r: Option<String>)
        ensures
            match self@ {
                Some(s) => if s.len() == 1 && valid_utf8(s[0]) {
                    r matches Some(x) && x@ == lowercase(decode_utf8(s[0]))
                } else {
                    r is None
                },
                None => r is None,
            },
    {
        match &self.sections {
            None => None,
            Some(sections) => {
                if sections.len() != 1 {
                    return None;
                }
                let first = vstd::slice::slice_to_vec(sections[0].as_slice());
                assert(first@ == byte_seqs(sections@)[0]);
                match string_from_utf8(first) {
                    None => None,
                    Some(text) => Some(str_to_lowercase(text.as_str())),
                }
            },
        }
    }

    /// Whether the server answers this `INFO`: exactly one section, given as
    /// UTF-8 and named `replication` or `server` in any case.
    pub fn answers(&self, config: &Config) -> (b: bool)
        ensures
            b == info_reply(self@, config@) is Some,
    {
        match self.requested_section() {
            Some(section) => str_eq(section.as_str(), "replication") || str_eq(section.as_str(), "server"),
            None => false,
        }
    }

    /// The frame to write in reply, for an `INFO` the server answers (see
    /// [`Info::answers`]).
    pub fn apply(self, config: &Config) -> (reply: Frame)
        requires
            info_reply(self@, config@) is Some,
        ensures
            info_reply(self@, config@) == Some(reply@),
    {
        match self.requested_section() {
            Some(section) => Info::reply_for_section(section.as_str(), config),
            None => {
                assert(false);
                Frame::Null
            },
        }
    }

    /// The frame to write in reply where the server answers this `INFO`, and
    /// `None` where it does not (on those requests the server has no reply).
    pub fn try_apply(self, config: &Config) -> (reply: Option<Frame>)
        ensures
            match reply {
                Some(f) => info_reply(self@, config@) == Some(f@),
                None => info_reply(self@, config@) is None,
            },
    {
        if self.answers(config) {
            Some(self.apply(config))
        } else {
            None
        }
    }

    /// The frame a client sends for this `INFO`.
    pub fn into_frame(self) -> (f: Frame)
        ensures
            f@ == info_frame(self@),
    {
        let mut frame = Frame::array();
        frame.push_bulk(vstd::slice::slice_to_vec("info".as_bytes()));
        let ghost header = frame@->Array_0;
        match self.sections {
            Some(sections) => {
                let ghost all = byte_seqs(sections@);
                assert(all.len() == sections@.len());
                assert(sections.len() == sections@.len());
                let mut rest = sections;
                let mut k: usize = 0;
                while rest.len() > 0
                    invariant
                        k <= all.len(),
                        all.len() <= usize::MAX,
                        byte_seqs(rest@) == all.skip(k as int),
                        frame@ == SpecFrame::Array(
                            header + bulk_frames(all.take(k as int)),
                        ),
                    decreases rest@.len(),
                {
                    let ghost before = rest@;
                    let section = rest.remove(0);
                    assert(section@ == all[k as int]) by {
                        assert(section == before[0]);
                        assert(all.skip(k as int).len() == before.len());
                        assert(all.skip(k as int)[0] == all[k as int]);
                        assert(byte_seqs(before)[0] == before[0]@);
                        assert(byte_seqs(before)[0] == all.skip(k as int)[0]);
                    }
                    frame.push_bulk(section);
                    assert(all.skip(k as int).len() == before.len());
                    assert forall|j: int| 0 <= j < rest@.len() implies #[trigger] byte_seqs(rest@)[j] == all.skip(k + 1)[j] by {
                        assert(rest@ == before.remove(0));
                        assert(rest@[j] == before[j + 1]);
                        assert(byte_seqs(rest@)[j] == rest@[j]@);
                        assert(all.skip(k + 1)[j] == all[k + 1 + j]);
                        assert(all.skip(k as int)[j + 1] == all[k + 1 + j]);
                        assert(byte_seqs(before)[j + 1] == before[j + 1]@);
                        assert(byte_seqs(before)[j + 1] == all.skip(k as int)[j + 1]);
                    }
                    assert(byte_seqs(rest@) =~= all.skip(k + 1));
                    assert(bulk_frames(all.take(k + 1))
                        =~= bulk_frames(all.take(k as int)).push(SpecFrame::Bulk(all[k as int])));
                    assert(header + bulk_frames(all.take(k + 1))
                        =~= (header + bulk_frames(all.take(k as int))).push(SpecFrame::Bulk(all[k as int])));
                    k = k + 1;
                }
                assert(all.take(k as int) =~= all);
            },
            None => {
                assert(header + Seq::<SpecFrame>::empty() =~= header);
            },
        }
        frame
    }
}

impl Default for Info {
    /// An `INFO` that keeps no list of sections.
    fn default() -> (i: Info)
        ensures
            i@ == None::<Seq<Seq<u8>>>,
    {
        Info { sections: None }
    }
}

/// What a client sends for an `INFO` with a list of sections the server
/// reads back as the same `INFO`, with no field left over.
pub proof fn lemma_info_roundtrip(sections: Seq<Seq<u8>>)
    ensures
        read_info(info_frame(Some(sections))->Array_0.drop_first()) == (
            Ok::<_, SpecError>(Some(sections)),
            Seq::<SpecFrame>::empty(),
        ),
{
    let fields = info_frame(Some(sections))->Array_0.drop_first();
    assert(fields =~= bulk_frames(sections));
    lemma_read_bulk_sections(sections);
}

proof fn lemma_read_bulk_sections(sections: Seq<Seq<u8>>)
    ensures
        read_sections(bulk_frames(sections)) == (
            Ok::<_, SpecError>(sections),
            Seq::<SpecFrame>::empty(),
        ),
    decreases sections.len(),
{
    let fields = bulk_frames(sections);
    if sections.len() == 0 {
        assert(fields =~= Seq::<SpecFrame>::empty());
        assert(sections =~= Seq::<Seq<u8>>::empty());
    } else {
        assert(fields.drop_first() =~= bulk_frames(sections.drop_first()));
        lemma_read_bulk_sections(sections.drop_first());
        assert(fields.len() > 0);
        assert(fields[0] == SpecFrame::Bulk(sections[0]));
        assert(bytes_field(fields[0]) == Ok::<Seq<u8>, SpecError>(sections[0]));
        assert(seq![sections[0]] + sections.drop_first() =~= sections);
        let tail = read_sections(fields.drop_first());
        assert(tail == (Ok::<_, SpecError>(sections.drop_first()), Seq::<SpecFrame>::empty()));
        assert(read_sections(fields) == (with_prefix(seq![sections[0]], tail.0), tail.1));
    }
}

/// An `INFO` naming one section, `replication` or `server` in any case, is
/// answered, whatever the server's role, with the text of that part of the
/// configuration, as UTF-8 in a bulk frame.
pub proof fn lemma_info_sections(section: Seq<u8>, config: ConfigState)
    requires
        valid_utf8(section),
    ensures
        lowercase(decode_utf8(section)) == "replication"@ ==> info_reply(Some(seq![section]), config)
            == Some(SpecFrame::Bulk(encode_utf8(replication_text(config.replication)))),
        lowercase(decode_utf8(section)) == "server"@ ==> info_reply(Some(seq![section]), config)
            == Some(SpecFrame::Bulk(encode_utf8(server_text(config.tcp_port)))),
{
    reveal_strlit("replication");
    reveal_strlit("server");
    assert("replication"@.len() != "server"@.len());
}

} // verus!
