//! Frames of the Redis protocol (RESP) and their mathematical model.

use vstd::prelude::*;

use crate::error::Error;

verus! {

/// A frame of the Redis protocol.
#[derive(Debug, PartialEq, Eq)]
pub enum Frame {
    Simple(String),
    Error(String),
    Integer(i64),
    Bulk(Vec<u8>),
    Null,
    Array(Vec<Frame>),
    /// A file sent as one payload (the RDB snapshot of a full resynchronisation).
    File(Vec<u8>),
}

/// The value a frame stands for: texts as sequences of characters, payloads
/// as sequences of bytes.
pub enum SpecFrame {
    Simple(Seq<char>),
    Error(Seq<char>),
    Integer(i64),
    Bulk(Seq<u8>),
    Null,
    Array(Seq<SpecFrame>),
    File(Seq<u8>),
}

/// The value of a frame.
pub open spec fn frame_view(f: Frame) -> SpecFrame
    decreases f,
{
    match f {
        Frame::Simple(s) => SpecFrame::Simple(s@),
        Frame::Error(s) => SpecFrame::Error(s@),
        Frame::Integer(v) => SpecFrame::Integer(v),
        Frame::Bulk(b) => SpecFrame::Bulk(b@),
        Frame::Null => SpecFrame::Null,
        Frame::Array(v) => SpecFrame::Array(frames_view(v@)),
        Frame::File(b) => SpecFrame::File(b@),
    }
}

/// The values of a sequence of frames.
pub open spec fn frames_view(s: Seq<Frame>) -> Seq<SpecFrame>
    decreases s,
{
    if s.len() == 0 {
        Seq::empty()
    } else {
        frames_view(s.drop_last()).push(frame_view(s.last()))
    }
}

impl View for Frame {
    type V = SpecFrame;

    open spec fn view(&self) -> SpecFrame {
        frame_view(*self)
    }
}

/// A bulk frame holding the UTF-8 bytes of a text.
pub open spec fn bulk_text(t: Seq<char>) -> SpecFrame {
    SpecFrame::Bulk(vstd::utf8::encode_utf8(t))
}

/// The value of each frame of a sequence is the value at the same place.
pub proof fn lemma_frames_view(s: Seq<Frame>)
    ensures
        frames_view(s).len() == s.len(),
        forall|i: int| 0 <= i < s.len() ==> #[trigger] frames_view(s)[i] == frame_view(s[i]),
    decreases s.len(),
{
    if s.len() > 0 {
        lemma_frames_view(s.drop_last());
        assert forall|i: int| 0 <= i < s.len() implies #[trigger] frames_view(s)[i] == frame_view(s[i]) by {
            if i < s.len() - 1 {
                assert(s.drop_last()[i] == s[i]);
            }
        }
    }
}

/// Two sequences of frames with the same values at every place have the same value.
pub proof fn lemma_frames_view_ext(s: Seq<Frame>, t: Seq<SpecFrame>)
    requires
        s.len() == t.len(),
        forall|i: int| 0 <= i < s.len() ==> frame_view(#[trigger] s[i]) == t[i],
    ensures
        frames_view(s) == t,
{
    lemma_frames_view(s);
    assert(frames_view(s) =~= t);
}

impl Frame {
    /// An empty array frame.
    pub fn array() -> (f: Frame)
        ensures
            f@ == SpecFrame::Array(Seq::empty()),
    {
        let v: Vec<Frame> = Vec::new();
        proof {
            lemma_frames_view_ext(v@, Seq::empty());
        }
        Frame::Array(v)
    }

    /// Appends a bulk frame holding `bytes` to an array frame.
    pub fn push_bulk(&mut self, bytes: Vec<u8>)
        requires
            old(self)@ is Array,
        ensures
            final(self)@ == SpecFrame::Array(old(self)@->Array_0.push(SpecFrame::Bulk(bytes@))),
    {
        let mut current = Frame::Null;
        std::mem::swap(&mut current, self);
        match current {
            Frame::Array(mut vec) => {
                let ghost before = vec@;
                vec.push(Frame::Bulk(bytes));
                proof {
                    assert(vec@.drop_last() =~= before);
                    assert(vec@.last() == Frame::Bulk(bytes));
                    assert(frame_view(vec@.last()) == SpecFrame::Bulk(bytes@));
                    assert(frames_view(vec@) == frames_view(vec@.drop_last()).push(frame_view(vec@.last())));
                    assert(frames_view(vec@) == frames_view(before).push(SpecFrame::Bulk(bytes@)));
                }
                *self = Frame::Array(vec);
            },
            other => {
                *self = other;
            },
        }
    }

    /// The error that an unexpected frame makes.
    pub fn to_error(self) -> (e: Error)
        ensures
            e matches Error::UnexpectedFrame(f) && f@ == self@,
    {
        Error::UnexpectedFrame(self)
    }
}

} // verus!
