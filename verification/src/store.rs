//! The rules of the conversation store. A conversation is kept as one record,
//! an ordered list of messages under an identifier derived from its title, and
//! the record is always rewritten in full. This module decides what a record is
//! taken to hold and what is to be written; reading and writing the files is
//! left to the caller.

use vstd::prelude::*;
use crate::decoder::{
    fragments_of, has_end_marker, interrupted, law_broken_stream_has_no_reply,
    law_done_needs_end_marker,
    lemma_stream_invariant, partial_text, reply_of, state_after, DecoderState, DecoderView,
    StreamDecoder,
};
use crate::model::{
    law_role_names_are_distinct, role_name, role_named, ChunkView, Message, MessageView, Role,
};
use crate::text::{alphanumeric, ends_with, is_alphanumeric, push_char};

verus! {

/// What becomes of one character of a title, given whether it is a letter or
/// a digit: letters, digits and the hyphen stay, every other character becomes
/// an underscore.
pub open spec fn kept_char(c: char, is_alphanumeric: bool) -> char {
    if is_alphanumeric || c == '-' {
        c
    } else {
        '_'
    }
}

/// What becomes of one character of a title.
pub open spec fn sanitized_char(c: char) -> char {
    kept_char(c, alphanumeric(c))
}

/// Decides what becomes of one character of a title, given whether it is a
/// letter or a digit.
pub fn sanitize_char(c: char, is_alphanumeric: bool) -> (kept: char)
    ensures
        kept == kept_char(c, is_alphanumeric),
{
    if is_alphanumeric || c == '-' {
        c
    } else {
        '_'
    }
}

/// The identifier of the conversation with the given title.
pub open spec fn sanitized(title: Seq<char>) -> Seq<char> {
    title.map_values(|c: char| sanitized_char(c))
}

/// Derives a conversation's identifier from its title. Every title has one;
/// two titles may share it.
pub fn sanitize_filename(filename: &str) -> (identifier: String)
    ensures
        identifier@ == sanitized(filename@),
{
    broadcast use vstd::string::group_string_axioms;

    let mut identifier = String::new();
    for c in it: filename.chars()
        invariant
            it.seq() == filename@,
            identifier@ == sanitized(filename@.take(it.index())),
    {
        let kept = sanitize_char(c, is_alphanumeric(c));
        push_char(&mut identifier, kept);
    }
    identifier
}

/// An identifier holds nothing but letters, digits, hyphens and underscores.
pub proof fn law_identifier_is_safe(title: Seq<char>, i: int)
    requires
        0 <= i < sanitized(title).len(),
    ensures
        alphanumeric(sanitized(title)[i]) || sanitized(title)[i] == '-' || sanitized(title)[i]
            == '_',
        sanitized(title).len() == title.len(),
{
}

/// An identifier is its own identifier.
pub proof fn law_sanitizing_twice_changes_nothing(title: Seq<char>)
    ensures
        sanitized(sanitized(title)) == sanitized(title),
{
}

/// The ending of a record's file name.
pub open spec fn record_extension() -> Seq<char> {
    ".json"@
}

/// The file name of the record of the conversation with the given title.
pub open spec fn record_name(title: Seq<char>) -> Seq<char> {
    sanitized(title) + record_extension()
}

/// The file name under which a conversation's record is kept: its identifier
/// and the record ending. The directory is the caller's to choose.
pub fn record_file_name(title: &str) -> (name: String)
    ensures
        name@ == record_name(title@),
{
    let mut name = sanitize_filename(title);
    name.append(".json");
    name
}

/// What the caller found where a conversation's record is kept.
#[derive(Clone, Debug, PartialEq, Eq)]
pub enum StoredRecord {
    /// There is no record.
    Missing,
    /// There is a record, and it holds nothing at all.
    Empty,
    /// There is a record, and it cannot be read as a list of messages.
    Unreadable,
    /// There is a record, and it holds these messages.
    Messages(Vec<Message>),
}

/// A stored record as a mathematical value.
pub enum RecordView {
    Missing,
    Empty,
    Unreadable,
    Messages(Seq<MessageView>),
}

impl View for StoredRecord {
    type V = RecordView;

    open spec fn view(&self) -> RecordView {
        match self {
            StoredRecord::Missing => RecordView::Missing,
            StoredRecord::Empty => RecordView::Empty,
            StoredRecord::Unreadable => RecordView::Unreadable,
            StoredRecord::Messages(messages) => RecordView::Messages(messages.deep_view()),
        }
    }
}

/// One entry of a record as it is written: the role by its name, and the text.
#[derive(Clone, Debug, PartialEq, Eq)]
pub struct RecordEntry {
    pub role: String,
    pub content: String,
}

/// A record entry as a mathematical value.
pub struct EntryView {
    pub role: Seq<char>,
    pub content: Seq<char>,
}

impl View for RecordEntry {
    type V = EntryView;

    open spec fn view(&self) -> EntryView {
        EntryView { role: self.role@, content: self.content@ }
    }
}

impl DeepView for RecordEntry {
    type V = EntryView;

    open spec fn deep_view(&self) -> EntryView {
        self@
    }
}

/// The entry that a message is written as.
pub open spec fn entry_of(message: MessageView) -> EntryView {
    EntryView { role: role_name(message.role), content: message.content }
}

/// The entries that a list of messages is written as, in the same order.
pub open spec fn entries_of(messages: Seq<MessageView>) -> Seq<EntryView> {
    messages.map_values(|message: MessageView| entry_of(message))
}

/// Whether every entry names a role.
pub open spec fn roles_known(entries: Seq<EntryView>) -> bool {
    forall|i: int| 0 <= i < entries.len() ==> role_named((#[trigger] entries[i]).role) is Some
}

/// The messages that entries stand for, where every entry names a role.
pub open spec fn messages_of(entries: Seq<EntryView>) -> Seq<MessageView> {
    entries.map_values(
        |entry: EntryView| MessageView { role: role_named(entry.role)->0, content: entry.content },
    )
}

/// The stored record that a list of entries stands for: its messages, or an
/// unreadable record where an entry names no role.
pub open spec fn record_of(entries: Seq<EntryView>) -> RecordView {
    if roles_known(entries) {
        RecordView::Messages(messages_of(entries))
    } else {
        RecordView::Unreadable
    }
}

/// Writes messages as record entries.
pub fn to_entries(messages: &Vec<Message>) -> (entries: Vec<RecordEntry>)
    ensures
        entries.deep_view() == entries_of(messages.deep_view()),
{
    let mut entries: Vec<RecordEntry> = Vec::new();
    let mut i: usize = 0;
    while i < messages.len()
        invariant
            i <= messages.len(),
            entries.len() == i,
            forall|k: int| 0 <= k < i ==> (#[trigger] entries[k])@ == entry_of(messages[k]@),
        decreases messages.len() - i,
    {
        let message = &messages[i];
        entries.push(
            RecordEntry {
                role: String::from_str(message.role.name()),
                content: message.content.clone(),
            },
        );
        i += 1;
    }
    entries
}

/// Reads the entries of a record as messages. A record with an entry whose
/// role is not the name of one cannot be read.
pub fn from_entries(entries: Vec<RecordEntry>) -> (stored: StoredRecord)
    ensures
        stored@ == record_of(entries.deep_view()),
{
    let ghost all = entries.deep_view();
    let mut messages: Vec<Message> = Vec::new();
    let mut i: usize = 0;
    while i < entries.len()
        invariant
            i <= entries.len(),
            all == entries.deep_view(),
            messages.len() == i,
            forall|k: int| 0 <= k < i ==> role_named((#[trigger] all[k]).role) is Some,
            forall|k: int|
                0 <= k < i ==> (#[trigger] messages[k])@ == (MessageView {
                    role: role_named(all[k].role)->0,
                    content: all[k].content,
                }),
        decreases entries.len() - i,
    {
        let entry = &entries[i];
        assert(all[i as int] == entry@);
        match Role::from_name(entry.role.as_str()) {
            Some(role) => {
                messages.push(Message { role, content: entry.content.clone() });
            },
            None => {
                return StoredRecord::Unreadable;
            },
        }
        i += 1;
    }
    assert(messages.deep_view() =~= messages_of(all));
    StoredRecord::Messages(messages)
}

/// Messages that are written as entries are read back as they were.
pub proof fn law_entries_read_back(messages: Seq<MessageView>)
    ensures
        record_of(entries_of(messages)) == RecordView::Messages(messages),
{
    let entries = entries_of(messages);
    assert forall|i: int| 0 <= i < entries.len() implies role_named(
        (#[trigger] entries[i]).role,
    ) == Some(messages[i].role) by {
        law_role_names_are_distinct(messages[i].role);
    }
    assert(messages_of(entries) =~= messages);
}

/// The messages of a conversation as they are to be used or written, and
/// whether an unreadable record was given up to get them.
#[derive(Clone, Debug, PartialEq, Eq)]
pub struct History {
    pub messages: Vec<Message>,
    pub replaced_unreadable: bool,
}

/// A history as a mathematical value.
pub struct HistoryView {
    pub messages: Seq<MessageView>,
    pub replaced_unreadable: bool,
}

impl View for History {
    type V = HistoryView;

    open spec fn view(&self) -> HistoryView {
        HistoryView {
            messages: self.messages.deep_view(),
            replaced_unreadable: self.replaced_unreadable,
        }
    }
}

/// The messages that a stored record is taken to hold. A record that is
/// missing or empty holds none. Neither does one that cannot be read: its
/// content is given up, so that the conversation stays usable.
pub open spec fn readable(stored: RecordView) -> Seq<MessageView> {
    match stored {
        RecordView::Messages(messages) => messages,
        RecordView::Missing => Seq::empty(),
        RecordView::Empty => Seq::empty(),
        RecordView::Unreadable => Seq::empty(),
    }
}

/// The history that a stored record stands for.
pub open spec fn recovered(stored: RecordView) -> HistoryView {
    HistoryView { messages: readable(stored), replaced_unreadable: stored is Unreadable }
}

/// Takes a stored record for what can be read of it. This is the one place
/// where an unreadable record is replaced by an empty one, and the result says
/// when that happened.
pub fn recover(stored: StoredRecord) -> (history: History)
    ensures
        history@ == recovered(stored@),
{
    match stored {
        StoredRecord::Messages(messages) => History { messages, replaced_unreadable: false },
        StoredRecord::Missing => {
            let messages: Vec<Message> = Vec::new();
            assert(messages.deep_view() =~= Seq::empty());
            History { messages, replaced_unreadable: false }
        },
        StoredRecord::Empty => {
            let messages: Vec<Message> = Vec::new();
            assert(messages.deep_view() =~= Seq::empty());
            History { messages, replaced_unreadable: false }
        },
        StoredRecord::Unreadable => {
            let messages: Vec<Message> = Vec::new();
            assert(messages.deep_view() =~= Seq::empty());
            History { messages, replaced_unreadable: true }
        },
    }
}

/// What is to be done to a record.
#[derive(Clone, Debug, PartialEq, Eq)]
pub enum StoreAction {
    /// The record stays as it is.
    Keep,
    /// The record is replaced, in full, by these messages.
    Write(History),
}

/// A store action as a mathematical value.
pub enum ActionView {
    Keep,
    Write(HistoryView),
}

impl View for StoreAction {
    type V = ActionView;

    open spec fn view(&self) -> ActionView {
        match self {
            StoreAction::Keep => ActionView::Keep,
            StoreAction::Write(history) => ActionView::Write(history@),
        }
    }
}

/// The record once the action has been carried out.
pub open spec fn record_after(before: RecordView, action: ActionView) -> RecordView {
    match action {
        ActionView::Keep => before,
        ActionView::Write(history) => RecordView::Messages(history.messages),
    }
}

/// What creating a conversation does: an empty list of messages is written
/// where there is no record yet, and a record that exists is not touched.
pub open spec fn creation(exists: bool) -> ActionView {
    if exists {
        ActionView::Keep
    } else {
        ActionView::Write(HistoryView { messages: Seq::empty(), replaced_unreadable: false })
    }
}

/// Decides what creating a conversation has to write, given whether its
/// record exists already.
pub fn create_conversation(exists: bool) -> (action: StoreAction)
    ensures
        action@ == creation(exists),
{
    if exists {
        StoreAction::Keep
    } else {
        let messages: Vec<Message> = Vec::new();
        assert(messages.deep_view() =~= Seq::empty());
        StoreAction::Write(History { messages, replaced_unreadable: false })
    }
}

/// The history after `message` has been appended to a stored record.
pub open spec fn appended(stored: RecordView, message: MessageView) -> HistoryView {
    HistoryView {
        messages: readable(stored).push(message),
        replaced_unreadable: stored is Unreadable,
    }
}

/// Appends a message to a conversation: returns the record to write in place
/// of the stored one, which is what could be read of it followed by the new
/// message. Appending to an unreadable record gives a record of that one
/// message, and the result says so.
pub fn append_conversation(conversation: Message, stored: StoredRecord) -> (history: History)
    ensures
        history@ == appended(stored@, conversation@),
{
    let mut history = recover(stored);
    let ghost before = history.messages.deep_view();
    history.messages.push(conversation);
    assert(history.messages.deep_view() =~= before.push(conversation@));
    history
}

/// The sentence that opens every transcript.
pub open spec fn context_header() -> Seq<char> {
    "Use this conversation history to add context to your response. If there is no history, just respond to the prompt: "@
}

/// One message as it stands in a transcript: its role, a colon and a space,
/// and its text.
pub open spec fn rendered(message: MessageView) -> Seq<char> {
    role_name(message.role) + ": "@ + message.content
}

/// The lines of a transcript: each message on a line of its own, in order.
pub open spec fn transcript_lines(messages: Seq<MessageView>) -> Seq<char>
    decreases messages.len(),
{
    if messages.len() == 0 {
        Seq::empty()
    } else {
        transcript_lines(messages.drop_last()) + "\n"@ + rendered(messages.last())
    }
}

/// The transcript of a stored record: the opening sentence, then the lines of
/// the messages that the record is taken to hold.
pub open spec fn transcript(stored: RecordView) -> Seq<char> {
    context_header() + transcript_lines(readable(stored))
}

/// Builds the text that gives the chat service a conversation's history as
/// context. The stored record is only read.
pub fn get_history(stored: &StoredRecord) -> (history: String)
    ensures
        history@ == transcript(stored@),
{
    let mut history = String::from_str(
        "Use this conversation history to add context to your response. If there is no history, just respond to the prompt: ",
    );
    match stored {
        StoredRecord::Messages(messages) => {
            let ghost all = messages.deep_view();
            let mut i: usize = 0;
            while i < messages.len()
                invariant
                    i <= messages.len(),
                    all == messages.deep_view(),
                    history@ == context_header() + transcript_lines(all.take(i as int)),
                decreases messages.len() - i,
            {
                let message = &messages[i];
                history.append("\n");
                history.append(message.role.name());
                history.append(": ");
                history.append(message.content.as_str());
                assert(all.take(i + 1).drop_last() =~= all.take(i as int));
                i += 1;
            }
            assert(all.take(i as int) =~= all);
        },
        _ => {},
    }
    history
}

/// Whether a file name is that of a record.
pub open spec fn is_record_name(name: Seq<char>) -> bool {
    record_extension().is_suffix_of(name)
}

/// The identifier in a record's file name: the name without the record
/// ending.
pub open spec fn identifier_in(name: Seq<char>) -> Seq<char> {
    name.subrange(0, name.len() - record_extension().len())
}

/// The identifiers of the records among `names`: for each name that is that
/// of a record the identifier in it, in the same order.
pub open spec fn record_identifiers(names: Seq<Seq<char>>) -> Seq<Seq<char>>
    decreases names.len(),
{
    if names.len() == 0 {
        Seq::empty()
    } else if is_record_name(names.last()) {
        record_identifiers(names.drop_last()).push(identifier_in(names.last()))
    } else {
        record_identifiers(names.drop_last())
    }
}

/// Lists the conversations among the file names of the store's directory:
/// the identifier of every name that ends as a record's does, in the order in
/// which the names came. Other names are passed over.
pub fn get_conversations(file_names: Vec<String>) -> (conversations: Vec<String>)
    ensures
        conversations.deep_view() == record_identifiers(file_names.deep_view()),
{
    let ghost all = file_names.deep_view();
    let mut conversations: Vec<String> = Vec::new();
    let mut i: usize = 0;
    while i < file_names.len()
        invariant
            i <= file_names.len(),
            all == file_names.deep_view(),
            conversations.deep_view() == record_identifiers(all.take(i as int)),
        decreases file_names.len() - i,
    {
        let name = &file_names[i];
        assert(all.take(i + 1).drop_last() =~= all.take(i as int));
        if ends_with(name.as_str(), ".json") {
            proof {
                reveal_strlit(".json");
            }
            let length = name.as_str().unicode_len();
            let identifier = name.as_str().substring_char(0, length - 5);
            conversations.push(identifier.to_owned());
        }
        i += 1;
    }
    assert(all.take(i as int) =~= all);
    conversations
}

/// What the end of a turn does to the record: the reply is appended once the
/// decoder is done, and the record is kept as it is otherwise.
pub open spec fn reply_written(decoder: DecoderView, stored: RecordView) -> ActionView {
    match reply_of(decoder) {
        Some(reply) => ActionView::Write(appended(stored, reply)),
        None => ActionView::Keep,
    }
}

/// Decides what the end of a turn has to write: the stored record with the
/// assistant's reply appended, once the whole reply has been read, and nothing
/// where the stream failed or broke off before its end.
pub fn reply_action(decoder: &StreamDecoder, stored: StoredRecord) -> (action: StoreAction)
    ensures
        action@ == reply_written(decoder@, stored@),
{
    match decoder.reply() {
        Some(reply) => StoreAction::Write(append_conversation(reply, stored)),
        None => StoreAction::Keep,
    }
}

/// What the end of a request for a title does to the record under that title,
/// given whether there is one: the conversation is created once the decoder
/// is done, and nothing is written otherwise.
pub open spec fn title_written(decoder: DecoderView, exists: bool) -> ActionView {
    if decoder.state == DecoderState::Done {
        creation(exists)
    } else {
        ActionView::Keep
    }
}

/// Decides what the end of a request for a title has to write: the empty
/// record of a new conversation, once the whole title has been read and where
/// there is no record under it yet, and nothing where the stream ended, failed
/// or broke off before the end of the title.
pub fn title_action(decoder: &StreamDecoder, exists: bool) -> (action: StoreAction)
    ensures
        action@ == title_written(decoder@, exists),
{
    match decoder.state() {
        DecoderState::Done => create_conversation(exists),
        _ => StoreAction::Keep,
    }
}

/// The record after each of `messages` has been appended to it and written,
/// one after the other.
pub open spec fn after_appends(stored: RecordView, messages: Seq<MessageView>) -> RecordView
    decreases messages.len(),
{
    if messages.len() == 0 {
        stored
    } else {
        let earlier = after_appends(stored, messages.drop_last());
        record_after(earlier, ActionView::Write(appended(earlier, messages.last())))
    }
}

/// The record once a conversation has been created, where `before` is what
/// was stored until then.
pub open spec fn after_creation(before: RecordView) -> RecordView {
    record_after(before, creation(!(before is Missing)))
}

/// Creating a conversation leaves an existing record as it is, whatever it
/// holds; and creating it a second time changes nothing.
pub proof fn law_creation_is_idempotent(before: RecordView)
    ensures
        !(before is Missing) ==> after_creation(before) == before,
        before is Missing ==> after_creation(before) == RecordView::Messages(Seq::empty()),
        after_creation(after_creation(before)) == after_creation(before),
{
}

proof fn lemma_transcript_lines_join(first: Seq<MessageView>, second: Seq<MessageView>)
    ensures
        transcript_lines(first + second) == transcript_lines(first) + transcript_lines(second),
    decreases second.len(),
{
    if second.len() > 0 {
        assert((first + second).drop_last() =~= first + second.drop_last());
        lemma_transcript_lines_join(first, second.drop_last());
    }
}

/// Messages that are appended one after the other stand in the record in that
/// order, after what it held before, and the transcript shows them in that
/// order, one line each.
pub proof fn law_appends_keep_order(stored: RecordView, messages: Seq<MessageView>)
    ensures
        readable(after_appends(stored, messages)) == readable(stored) + messages,
        transcript(after_appends(stored, messages)) == transcript(stored) + transcript_lines(
            messages,
        ),
    decreases messages.len(),
{
    if messages.len() > 0 {
        law_appends_keep_order(stored, messages.drop_last());
        assert(readable(after_appends(stored, messages)) =~= readable(stored) + messages);
        lemma_transcript_lines_join(readable(stored), messages);
        assert(transcript(after_appends(stored, messages)) =~= transcript(stored)
            + transcript_lines(messages));
    }
}

/// Appending to a record that cannot be read gives a record of exactly the
/// new message, and the result says that the old content was given up.
pub proof fn law_unreadable_record_is_replaced(message: MessageView)
    ensures
        appended(RecordView::Unreadable, message).messages == seq![message],
        appended(RecordView::Unreadable, message).replaced_unreadable,
        record_after(
            RecordView::Unreadable,
            ActionView::Write(appended(RecordView::Unreadable, message)),
        ) == RecordView::Messages(seq![message]),
{
}

/// A stream that fails or breaks off before the end of the reply changes
/// nothing in the record, however many fragments were shown before.
pub proof fn law_broken_stream_keeps_record(chunks: Seq<Option<ChunkView>>, stored: RecordView)
    requires
        !has_end_marker(chunks),
    ensures
        reply_written(state_after(chunks), stored) == ActionView::Keep,
        reply_written(interrupted(state_after(chunks)), stored) == ActionView::Keep,
        record_after(stored, reply_written(interrupted(state_after(chunks)), stored)) == stored,
{
    law_broken_stream_has_no_reply(chunks);
}

/// A request for a title whose stream ends, fails or breaks off before the end
/// of the title writes nothing: the store is as it was.
pub proof fn law_unfinished_title_writes_nothing(
    chunks: Seq<Option<ChunkView>>,
    exists: bool,
    stored: RecordView,
)
    requires
        !has_end_marker(chunks),
    ensures
        title_written(state_after(chunks), exists) == ActionView::Keep,
        title_written(interrupted(state_after(chunks)), exists) == ActionView::Keep,
        record_after(stored, title_written(state_after(chunks), exists)) == stored,
        record_after(stored, title_written(interrupted(state_after(chunks)), exists)) == stored,
{
    if state_after(chunks).state == DecoderState::Done {
        law_done_needs_end_marker(chunks);
    }
}

/// A record's file name is listed, and what is listed for it is the
/// identifier of its conversation.
pub proof fn law_record_name_leads_back(title: Seq<char>)
    ensures
        is_record_name(record_name(title)),
        identifier_in(record_name(title)) == sanitized(title),
{
    let name = record_name(title);
    assert(name.subrange(name.len() - record_extension().len(), name.len() as int)
        =~= record_extension());
}

/// A stream that reaches the end of the reply adds exactly one message to the
/// record: the assistant's, with the joined text of the fragments that were
/// shown before the final one.
pub proof fn law_completed_stream_appends_reply(chunks: Seq<Option<ChunkView>>, stored: RecordView)
    requires
        state_after(chunks).state == DecoderState::Done,
    ensures
        readable(record_after(stored, reply_written(state_after(chunks), stored))) == readable(
            stored,
        ).push(
            MessageView {
                role: Role::Assistant,
                content: partial_text(fragments_of(chunks)),
            },
        ),
{
    lemma_stream_invariant(chunks);
}

} // verus!
