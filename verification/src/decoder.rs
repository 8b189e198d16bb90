//! The decoder for a streamed reply. The service answers a request with a
//! sequence of chunks, each one JSON object; the decoder turns every chunk into
//! the fragments to show, gathers the reply's text, and stops at the chunk that
//! marks the end or at the first chunk that cannot be read.

use vstd::prelude::*;
use crate::model::{ChunkFields, ChunkView, FragmentView, Message, MessageView, Role, StreamFragment};
use crate::text::{decode_lossy, utf8_lossy};
use crate::wire::{parse_chunk, parsed_chunk};

verus! {

/// Where a decoder stands. Nothing leads out of `Done` or `Error`.
#[derive(Clone, Copy, Debug, PartialEq, Eq, Structural)]
pub enum DecoderState {
    /// The reply is still coming.
    AwaitingChunk,
    /// The chunk that marks the end of the reply has been read.
    Done,
    /// A chunk could not be read, or the stream broke off.
    Error,
}

/// Why a streamed reply was given up.
#[derive(Clone, Debug, PartialEq, Eq)]
pub enum StreamError {
    /// The response that opens the stream came with this status, which is not
    /// a success. Nothing was decoded.
    Transport(u16),
    /// A chunk was not valid JSON. Holds the text of that chunk.
    Decode(String),
}

/// A stream error as a mathematical value.
pub enum StreamErrorView {
    Transport(u16),
    Decode(Seq<char>),
}

impl View for StreamError {
    type V = StreamErrorView;

    open spec fn view(&self) -> StreamErrorView {
        match self {
            StreamError::Transport(status) => StreamErrorView::Transport(*status),
            StreamError::Decode(chunk) => StreamErrorView::Decode(chunk@),
        }
    }
}

/// A decoder as a mathematical value: its state, and the text of the reply as
/// far as it has been read.
pub struct DecoderView {
    pub state: DecoderState,
    pub text: Seq<char>,
}

/// The decoder before the first chunk.
pub open spec fn initial() -> DecoderView {
    DecoderView { state: DecoderState::AwaitingChunk, text: Seq::empty() }
}

/// The reply's text once `chunk` has been read after `text`.
pub open spec fn text_with(text: Seq<char>, chunk: ChunkView) -> Seq<char> {
    match chunk.content {
        Some(more) => text + more,
        None => text,
    }
}

/// The decoder after one chunk; `None` stands for a chunk that is not valid
/// JSON. A decoder that is done or has failed stays as it is.
pub open spec fn step(before: DecoderView, chunk: Option<ChunkView>) -> DecoderView {
    if before.state != DecoderState::AwaitingChunk {
        before
    } else {
        match chunk {
            None => DecoderView { state: DecoderState::Error, text: before.text },
            Some(c) => DecoderView {
                state: if c.done {
                    DecoderState::Done
                } else {
                    DecoderState::AwaitingChunk
                },
                text: text_with(before.text, c),
            },
        }
    }
}

/// The fragments that one chunk gives rise to: one that is not final for the
/// chunk's text, if it has any, and after it, if the chunk marks the end, the
/// final one with the whole reply. A chunk with both gives both, in this order.
pub open spec fn emitted(before: DecoderView, chunk: Option<ChunkView>) -> Seq<FragmentView> {
    if before.state != DecoderState::AwaitingChunk {
        Seq::empty()
    } else {
        match chunk {
            None => Seq::empty(),
            Some(c) => {
                let shown = match c.content {
                    Some(more) => seq![FragmentView { text: more, is_final: false }],
                    None => Seq::empty(),
                };
                let closing = if c.done {
                    seq![FragmentView { text: text_with(before.text, c), is_final: true }]
                } else {
                    Seq::empty()
                };
                shown + closing
            },
        }
    }
}

/// The decoder after the stream has broken off: failed, unless the reply was
/// complete already.
pub open spec fn interrupted(before: DecoderView) -> DecoderView {
    if before.state == DecoderState::AwaitingChunk {
        DecoderView { state: DecoderState::Error, text: before.text }
    } else {
        before
    }
}

/// The assistant's message that a decoder has to offer: the whole reply once
/// the decoder is done, and nothing before that or after a failure.
pub open spec fn reply_of(decoder: DecoderView) -> Option<MessageView> {
    if decoder.state == DecoderState::Done {
        Some(MessageView { role: Role::Assistant, content: decoder.text })
    } else {
        None
    }
}

/// Whether a response status counts as a success: 200 to 299.
pub open spec fn is_success(status: u16) -> bool {
    200 <= status < 300
}

/// Tells whether the response that opens a stream may be decoded at all.
pub fn check_status(status: u16) -> (checked: Result<(), StreamError>)
    ensures
        checked is Ok <==> is_success(status),
        checked matches Err(error) ==> error@ == StreamErrorView::Transport(status),
{
    if 200 <= status && status < 300 {
        Ok(())
    } else {
        Err(StreamError::Transport(status))
    }
}

/// Decodes one streamed reply.
#[derive(Debug)]
pub struct StreamDecoder {
    state: DecoderState,
    text: String,
}

impl View for StreamDecoder {
    type V = DecoderView;

    closed spec fn view(&self) -> DecoderView {
        DecoderView { state: self.state, text: self.text@ }
    }
}

impl StreamDecoder {
    /// A decoder that awaits the first chunk.
    pub fn new() -> (decoder: StreamDecoder)
        ensures
            decoder@ == initial(),
    {
        StreamDecoder { state: DecoderState::AwaitingChunk, text: String::new() }
    }

    /// A decoder for the response with the given status. A status that is not
    /// a success is refused before anything is decoded.
    pub fn open(status: u16) -> (opened: Result<StreamDecoder, StreamError>)
        ensures
            match opened {
                Ok(decoder) => is_success(status) && decoder@ == initial(),
                Err(error) => !is_success(status) && error@ == StreamErrorView::Transport(status),
            },
    {
        match check_status(status) {
            Ok(()) => Ok(StreamDecoder::new()),
            Err(error) => Err(error),
        }
    }

    /// Where the decoder stands.
    pub fn state(&self) -> (state: DecoderState)
        ensures
            state == self@.state,
    {
        self.state
    }

    /// The text of the reply as far as it has been read.
    pub fn text(&self) -> (text: &str)
        ensures
            text@ == self@.text,
    {
        self.text.as_str()
    }

    /// Takes in one chunk whose fields have been read, and returns the
    /// fragments to show for it, in order.
    pub fn apply(&mut self, chunk: ChunkFields) -> (fragments: Vec<StreamFragment>)
        ensures
            final(self)@ == step(old(self)@, Some(chunk@)),
            fragments.deep_view() == emitted(old(self)@, Some(chunk@)),
    {
        let mut fragments: Vec<StreamFragment> = Vec::new();
        if self.state != DecoderState::AwaitingChunk {
            return fragments;
        }
        let ghost before = self@;
        let ghost mut shown: Seq<FragmentView> = Seq::empty();
        if let Some(more) = chunk.content {
            self.text.append(more.as_str());
            proof {
                shown = seq![FragmentView { text: more@, is_final: false }];
            }
            fragments.push(StreamFragment { text: more, is_final: false });
        }
        if chunk.done {
            self.state = DecoderState::Done;
            let whole = self.text.clone();
            fragments.push(StreamFragment { text: whole, is_final: true });
            assert(fragments.deep_view() =~= shown + seq![
                FragmentView { text: text_with(before.text, chunk@), is_final: true },
            ]);
        }
        fragments
    }

    /// Takes in one chunk as it came from the transport. The bytes are read as
    /// text and the text as one JSON object. A chunk that is not valid JSON
    /// fails the decoder. A decoder that is done or has failed reads nothing
    /// and shows nothing.
    pub fn decode(&mut self, chunk: &[u8]) -> (outcome: Result<Vec<StreamFragment>, StreamError>)
        ensures
            final(self)@ == step(old(self)@, parsed_chunk(utf8_lossy(chunk@))),
            match outcome {
                Ok(fragments) => {
                    &&& fragments.deep_view() == emitted(
                        old(self)@,
                        parsed_chunk(utf8_lossy(chunk@)),
                    )
                    &&& old(self)@.state == DecoderState::AwaitingChunk ==> parsed_chunk(
                        utf8_lossy(chunk@),
                    ) is Some
                },
                Err(error) => {
                    &&& old(self)@.state == DecoderState::AwaitingChunk
                    &&& parsed_chunk(utf8_lossy(chunk@)) is None
                    &&& error@ == StreamErrorView::Decode(utf8_lossy(chunk@))
                },
            },
    {
        if self.state != DecoderState::AwaitingChunk {
            let nothing: Vec<StreamFragment> = Vec::new();
            return Ok(nothing);
        }
        let text = decode_lossy(chunk);
        match parse_chunk(text.as_str()) {
            Some(fields) => Ok(self.apply(fields)),
            None => {
                self.state = DecoderState::Error;
                Err(StreamError::Decode(text))
            },
        }
    }

    /// Records that the stream broke off: the connection failed, or the
    /// transport was closed. Unless the reply was complete already, the decoder
    /// has failed from now on, and what it had gathered is no reply.
    pub fn interrupt(&mut self)
        ensures
            final(self)@ == interrupted(old(self)@),
    {
        if self.state == DecoderState::AwaitingChunk {
            self.state = DecoderState::Error;
        }
    }

    /// The assistant's message to keep: the whole reply once the end has been
    /// read, and nothing otherwise.
    pub fn reply(&self) -> (reply: Option<Message>)
        ensures
            match reply {
                Some(message) => reply_of(self@) == Some(message@),
                None => reply_of(self@) is None,
            },
    {
        if self.state == DecoderState::Done {
            Some(Message { role: Role::Assistant, content: self.text.clone() })
        } else {
            None
        }
    }
}

/// The decoder after a whole sequence of chunks, read from the start.
pub open spec fn state_after(chunks: Seq<Option<ChunkView>>) -> DecoderView
    decreases chunks.len(),
{
    if chunks.len() == 0 {
        initial()
    } else {
        step(state_after(chunks.drop_last()), chunks.last())
    }
}

/// All the fragments that a sequence of chunks gives rise to, in the order in
/// which they are shown.
pub open spec fn fragments_of(chunks: Seq<Option<ChunkView>>) -> Seq<FragmentView>
    decreases chunks.len(),
{
    if chunks.len() == 0 {
        Seq::empty()
    } else {
        fragments_of(chunks.drop_last()) + emitted(
            state_after(chunks.drop_last()),
            chunks.last(),
        )
    }
}

/// The texts of the fragments that are not final, joined in order.
pub open spec fn partial_text(fragments: Seq<FragmentView>) -> Seq<char>
    decreases fragments.len(),
{
    if fragments.len() == 0 {
        Seq::empty()
    } else if fragments.last().is_final {
        partial_text(fragments.drop_last())
    } else {
        partial_text(fragments.drop_last()) + fragments.last().text
    }
}

/// Whether one of the chunks is valid JSON and marks the end of the reply.
pub open spec fn has_end_marker(chunks: Seq<Option<ChunkView>>) -> bool {
    exists|i: int| 0 <= i < chunks.len() && (#[trigger] chunks[i]) is Some && chunks[i]->0.done
}

proof fn lemma_partial_text_of_step(
    before: DecoderView,
    chunk: Option<ChunkView>,
    shown: Seq<FragmentView>,
)
    ensures
        partial_text(shown + emitted(before, chunk)) == partial_text(shown) + (step(
            before,
            chunk,
        ).text.skip(before.text.len() as int)),
        step(before, chunk).text == before.text + step(before, chunk).text.skip(
            before.text.len() as int,
        ),
{
    let added = step(before, chunk).text.skip(before.text.len() as int);
    let out = emitted(before, chunk);
    if out.len() > 0 {
        let c = chunk->0;
        // what is shown once the chunk's own text is, before the final fragment
        let mid = shown + match c.content {
            Some(more) => seq![FragmentView { text: more, is_final: false }],
            None => Seq::empty(),
        };
        assert(partial_text(mid) == partial_text(shown) + added) by {
            if c.content is Some {
                assert(mid.drop_last() =~= shown);
            }
        }
        if c.done {
            assert((shown + out).drop_last() =~= mid);
        }
    }
}

/// What holds of every stream, whatever its chunks: the text that the decoder
/// has gathered is the joined text of the fragments shown so far that are not
/// final; no final fragment is shown before the decoder is done; and once it
/// is done the final fragment is the last one shown and carries that text.
pub proof fn lemma_stream_invariant(chunks: Seq<Option<ChunkView>>)
    ensures
        state_after(chunks).text == partial_text(fragments_of(chunks)),
        state_after(chunks).state != DecoderState::Done ==> forall|i: int|
            0 <= i < fragments_of(chunks).len() ==> !(#[trigger] fragments_of(chunks)[i]).is_final,
        state_after(chunks).state == DecoderState::Done ==> {
            &&& fragments_of(chunks).len() > 0
            &&& fragments_of(chunks).last() == (FragmentView {
                text: state_after(chunks).text,
                is_final: true,
            })
            &&& forall|i: int|
                0 <= i < fragments_of(chunks).len() - 1 ==> !(#[trigger] fragments_of(
                    chunks,
                )[i]).is_final
        },
    decreases chunks.len(),
{
    if chunks.len() > 0 {
        let earlier = chunks.drop_last();
        lemma_stream_invariant(earlier);
        lemma_partial_text_of_step(state_after(earlier), chunks.last(), fragments_of(earlier));
    }
}

/// Nothing leads out of `Done` or `Error`: a chunk that comes later changes
/// nothing and shows nothing.
pub proof fn law_done_and_error_are_final(before: DecoderView, chunk: Option<ChunkView>)
    requires
        before.state != DecoderState::AwaitingChunk,
    ensures
        step(before, chunk) == before,
        emitted(before, chunk) == Seq::<FragmentView>::empty(),
        interrupted(before) == before,
{
}

/// The final fragment of a stream carries exactly the texts of the fragments
/// that are not final, joined in the order in which they were shown, and it is
/// the last fragment of the stream.
pub proof fn law_final_fragment_is_joined_text(chunks: Seq<Option<ChunkView>>, i: int)
    requires
        0 <= i < fragments_of(chunks).len(),
        fragments_of(chunks)[i].is_final,
    ensures
        fragments_of(chunks)[i].text == partial_text(fragments_of(chunks)),
        i == fragments_of(chunks).len() - 1,
        state_after(chunks).state == DecoderState::Done,
{
    lemma_stream_invariant(chunks);
}

/// A decoder is done only after a chunk that marks the end of the reply.
pub proof fn law_done_needs_end_marker(chunks: Seq<Option<ChunkView>>)
    requires
        state_after(chunks).state == DecoderState::Done,
    ensures
        has_end_marker(chunks),
    decreases chunks.len(),
{
    if chunks.len() > 0 {
        let earlier = chunks.drop_last();
        if state_after(earlier).state == DecoderState::Done {
            // the marker among the earlier chunks is one among all of them
            law_done_needs_end_marker(earlier);
            let i = choose|i: int|
                0 <= i < earlier.len() && (#[trigger] earlier[i]) is Some && earlier[i]->0.done;
            assert(chunks[i] == earlier[i]);
        } else {
            // the last chunk is the one that ended the reply
            assert(chunks[chunks.len() - 1] == chunks.last());
        }
    }
}

/// A stream that breaks off before the end of the reply leaves no reply,
/// however many fragments were shown before.
pub proof fn law_broken_stream_has_no_reply(chunks: Seq<Option<ChunkView>>)
    requires
        !has_end_marker(chunks),
    ensures
        reply_of(state_after(chunks)) is None,
        reply_of(interrupted(state_after(chunks))) is None,
{
    if state_after(chunks).state == DecoderState::Done {
        law_done_needs_end_marker(chunks);
    }
}

} // verus!
