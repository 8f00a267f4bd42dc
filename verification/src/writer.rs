//! Putting content on the clipboard.
//!
//! A writer hands commands to a thread.  Depending on the backend, the thread announces the content
//! to the compositor and hands it out on request, or leaves it to a clipboard library.
use vstd::prelude::*;

use crate::error::{Error, ErrorView};
use crate::globals::Globals;
use crate::optional;
use crate::preference::{contains_text, copy_texts};

verus! {

/// How long to wait for a command before the events of the connection are looked after, in
/// milliseconds.
pub const COMMAND_TIMEOUT_MILLIS: u64 = 50;

/// What a writer asks of its thread.
pub enum WriterCommand {
    SetText(String),
    SetImagePng(Vec<u8>),
    Shutdown,
}

/// A [`WriterCommand`] as a mathematical value.
pub enum CommandView {
    SetText(Seq<char>),
    SetImagePng(Seq<u8>),
    Shutdown,
}

impl View for WriterCommand {
    type V = CommandView;

    open spec fn view(&self) -> CommandView {
        match *self {
            WriterCommand::SetText(text) => CommandView::SetText(text@),
            WriterCommand::SetImagePng(data) => CommandView::SetImagePng(data@),
            WriterCommand::Shutdown => CommandView::Shutdown,
        }
    }
}

impl WriterCommand {
    /// The command that puts a text on the clipboard.
    pub fn set_text(text: &str) -> (command: Self)
        ensures
            command@ == CommandView::SetText(text@),
    {
        WriterCommand::SetText(text.to_string())
    }

    /// The command that puts an image on the clipboard.
    pub fn set_image_png(data: &[u8]) -> (command: Self)
        ensures
            command@ == CommandView::SetImagePng(data@),
    {
        WriterCommand::SetImagePng(vstd::slice::slice_to_vec(data))
    }
}

/// What a writer's user is told about a command: it was accepted if the thread could be reached.
pub fn command_result(delivered: bool) -> (result: Result<(), Error>)
    ensures
        delivered ==> result is Ok,
        !delivered ==> (result matches Err(error) && error@ == ErrorView::WatcherDead),
{
    if delivered {
        Ok(())
    } else {
        Err(Error::WatcherDead)
    }
}

/// Content on the clipboard, with the MIME types under which it can be had.
pub struct WriterContent {
    pub data: Vec<u8>,
    pub mime_types: Vec<String>,
}

/// A [`WriterContent`] as a mathematical value.
#[verifier::ext_equal]
pub struct WriterContentView {
    pub data: Seq<u8>,
    pub mime_types: Seq<Seq<char>>,
}

impl View for WriterContent {
    type V = WriterContentView;

    open spec fn view(&self) -> WriterContentView {
        WriterContentView { data: self.data@, mime_types: self.mime_types.deep_view() }
    }
}

impl CommandView {
    /// The bytes that the command puts on the clipboard: the UTF-8 encoding of a text, and an image
    /// as it is.
    pub open spec fn data(self) -> Option<Seq<u8>> {
        match self {
            CommandView::SetText(text) => Some(vstd::utf8::encode_utf8(text)),
            CommandView::SetImagePng(data) => Some(data),
            CommandView::Shutdown => None,
        }
    }

    /// The MIME types under which the bytes can be had.
    pub open spec fn mime_types(self) -> Seq<Seq<char>> {
        match self {
            CommandView::SetText(_) => seq!["text/plain;charset=utf-8"@, "text/plain"@],
            CommandView::SetImagePng(_) => seq!["image/png"@],
            CommandView::Shutdown => Seq::empty(),
        }
    }

    /// The content that the command puts on the clipboard.
    pub open spec fn content(self) -> Option<WriterContentView> {
        match self.data() {
            Some(data) => Some(WriterContentView { data, mime_types: self.mime_types() }),
            None => None,
        }
    }
}

/// The content that a command puts on the clipboard; none for the command to end.
pub fn command_content(command: WriterCommand) -> (content: Option<WriterContent>)
    ensures
        optional::viewed(content) == command@.content(),
{
    match command {
        WriterCommand::SetText(text) => {
            let mime_types = vec![
                "text/plain;charset=utf-8".to_string(),
                "text/plain".to_string(),
            ];
            assert(mime_types.deep_view() =~= command@.mime_types());
            Some(WriterContent { data: text.as_str().as_bytes_vec(), mime_types })
        },
        WriterCommand::SetImagePng(data) => {
            let mime_types = vec!["image/png".to_string()];
            assert(mime_types.deep_view() =~= command@.mime_types());
            Some(WriterContent { data, mime_types })
        },
        WriterCommand::Shutdown => None,
    }
}

/// What a writer's thread finds when it has waited for a command.
pub enum WriterInput {
    Command(WriterCommand),
    /// No command has come yet.
    Timeout,
    /// No command will come any more.
    Disconnected,
}

/// What a writer's thread does next.
pub enum WriterAction {
    /// It makes this content the selection and sends what is to be sent to the compositor.
    Publish(WriterContent),
    /// It sends what is to be sent to the compositor.
    Flush,
    /// It ends.
    Stop,
}

/// A [`WriterAction`] as a mathematical value.
#[verifier::ext_equal]
pub enum WriterActionView {
    Publish(WriterContentView),
    Flush,
    Stop,
}

impl View for WriterAction {
    type V = WriterActionView;

    open spec fn view(&self) -> WriterActionView {
        match *self {
            WriterAction::Publish(content) => WriterActionView::Publish(content@),
            WriterAction::Flush => WriterActionView::Flush,
            WriterAction::Stop => WriterActionView::Stop,
        }
    }
}

/// A [`WriterInput`] as a mathematical value.
pub enum InputView {
    Command(CommandView),
    Timeout,
    Disconnected,
}

impl View for WriterInput {
    type V = InputView;

    open spec fn view(&self) -> InputView {
        match *self {
            WriterInput::Command(command) => InputView::Command(command@),
            WriterInput::Timeout => InputView::Timeout,
            WriterInput::Disconnected => InputView::Disconnected,
        }
    }
}

impl InputView {
    /// What is done about the input.
    pub open spec fn action(self) -> WriterActionView {
        match self {
            InputView::Command(command) => match command.content() {
                Some(content) => WriterActionView::Publish(content),
                None => WriterActionView::Stop,
            },
            InputView::Timeout => WriterActionView::Flush,
            InputView::Disconnected => WriterActionView::Stop,
        }
    }
}

impl WriterInput {
    /// What to do about the input.
    pub fn into_action(self) -> (action: WriterAction)
        ensures
            action@ == self@.action(),
    {
        match self {
            WriterInput::Command(command) => match command_content(command) {
                Some(content) => WriterAction::Publish(content),
                None => WriterAction::Stop,
            },
            WriterInput::Timeout => WriterAction::Flush,
            WriterInput::Disconnected => WriterAction::Stop,
        }
    }
}

/// An event of the object by which content was announced to the compositor.
pub enum SourceEvent {
    /// Somebody wants the content under a MIME type.
    Send(String),
    /// The content is not the selection any more.
    Cancelled,
}

/// A [`SourceEvent`] as a mathematical value.
pub enum SourceEventView {
    Send(Seq<char>),
    Cancelled,
}

impl View for SourceEvent {
    type V = SourceEventView;

    open spec fn view(&self) -> SourceEventView {
        match *self {
            SourceEvent::Send(mime) => SourceEventView::Send(mime@),
            SourceEvent::Cancelled => SourceEventView::Cancelled,
        }
    }
}

/// What a writer does about an event of a source.
pub enum SourceAction {
    /// It hands out these bytes.
    Write(Vec<u8>),
    /// It destroys the source.
    Destroy,
    /// It hands out nothing.
    Nothing,
}

/// A [`SourceAction`] as a mathematical value.
#[verifier::ext_equal]
pub enum SourceActionView {
    Write(Seq<u8>),
    Destroy,
    Nothing,
}

impl View for SourceAction {
    type V = SourceActionView;

    open spec fn view(&self) -> SourceActionView {
        match *self {
            SourceAction::Write(data) => SourceActionView::Write(data@),
            SourceAction::Destroy => SourceActionView::Destroy,
            SourceAction::Nothing => SourceActionView::Nothing,
        }
    }
}

/// What a writer's thread remembers.  The objects of the connection are only handed on, so their
/// types are parameters.
pub struct WriterState<S, M, D> {
    /// The global objects of the compositor.
    pub globals: Globals<S, M>,
    /// The data-control device.
    pub device: Option<D>,
    /// The content that is handed out on request.
    pub pending_content: Option<WriterContent>,
}

/// A [`WriterState`] as a mathematical value.
#[verifier::ext_equal]
pub struct WriterView<S, M, D> {
    pub globals: Globals<S, M>,
    pub device: Option<D>,
    pub content: Option<WriterContentView>,
}

impl<S, M, D> View for WriterState<S, M, D> {
    type V = WriterView<S, M, D>;

    open spec fn view(&self) -> WriterView<S, M, D> {
        WriterView {
            globals: self.globals,
            device: self.device,
            content: optional::viewed(self.pending_content),
        }
    }
}

impl<S, M, D> WriterView<S, M, D> {
    /// Whether content can be made the selection.
    pub open spec fn ready(self) -> bool {
        self.globals.manager is Some && self.device is Some
    }

    /// The state once content is to be the selection.
    pub open spec fn after_set(self, content: WriterContentView) -> WriterView<S, M, D> {
        if self.ready() {
            WriterView { content: Some(content), ..self }
        } else {
            self
        }
    }

    /// The MIME types to announce when content is to be the selection.
    pub open spec fn announcement(self, content: WriterContentView) -> Option<Seq<Seq<char>>> {
        if self.ready() {
            Some(content.mime_types)
        } else {
            None
        }
    }

    /// What is done about an event of a source: a request is granted exactly if there is content
    /// that can be had under the type that is asked for.
    pub open spec fn source_action(self, event: SourceEventView) -> SourceActionView {
        match event {
            SourceEventView::Send(mime) => match self.content {
                Some(content) => if content.mime_types.contains(mime) {
                    SourceActionView::Write(content.data)
                } else {
                    SourceActionView::Nothing
                },
                None => SourceActionView::Nothing,
            },
            SourceEventView::Cancelled => SourceActionView::Destroy,
        }
    }
}

impl<S, M, D> WriterState<S, M, D> {
    /// Before anything is known of the connection.
    pub fn new() -> (state: Self)
        ensures
            state@ == (WriterView::<S, M, D> {
                globals: Globals { seat: None, manager: None },
                device: None,
                content: None,
            }),
    {
        WriterState { globals: Globals::new(), device: None, pending_content: None }
    }

    /// Notes content that is to be the selection.  The result is the list of MIME types to announce
    /// it under, by a new source that then becomes the selection; there is none, and the content is
    /// dropped, where the connection is not set up.
    pub fn set_selection(&mut self, content: WriterContent) -> (announce: Option<Vec<String>>)
        ensures
            final(self)@ == old(self)@.after_set(content@),
            (match announce {
                Some(mime_types) => Some(mime_types.deep_view()),
                None => None,
            }) == old(self)@.announcement(content@),
    {
        if self.globals.manager.is_none() || self.device.is_none() {
            return None;
        }
        let mime_types = copy_texts(&content.mime_types);
        self.pending_content = Some(content);
        Some(mime_types)
    }

    /// Handles an event of a source.
    pub fn source_event(&self, event: SourceEvent) -> (action: SourceAction)
        ensures
            action@ == self@.source_action(event@),
    {
        match event {
            SourceEvent::Send(mime) => match &self.pending_content {
                Some(content) => {
                    if contains_text(&content.mime_types, mime.as_str()) {
                        let data = content.data.clone();
                        assert(data@ =~= content.data@);
                        SourceAction::Write(data)
                    } else {
                        SourceAction::Nothing
                    }
                },
                None => SourceAction::Nothing,
            },
            SourceEvent::Cancelled => SourceAction::Destroy,
        }
    }
}

/// Bytes that are to be stored on the clipboard of an X server under a target.
pub struct X11Store {
    pub target: u32,
    pub data: Vec<u8>,
}

/// An [`X11Store`] as a mathematical value.
#[verifier::ext_equal]
pub struct X11StoreView {
    pub target: u32,
    pub data: Seq<u8>,
}

impl View for X11Store {
    type V = X11StoreView;

    open spec fn view(&self) -> X11StoreView {
        X11StoreView { target: self.target, data: self.data@ }
    }
}

/// The MIME types under which a clipboard library is to offer bytes.
pub enum CopyMime {
    /// All those that stand for text.
    Text,
    /// This one.
    Specific(String),
}

/// A [`CopyMime`] as a mathematical value.
#[verifier::ext_equal]
pub enum CopyMimeView {
    Text,
    Specific(Seq<char>),
}

impl View for CopyMime {
    type V = CopyMimeView;

    open spec fn view(&self) -> CopyMimeView {
        match *self {
            CopyMime::Text => CopyMimeView::Text,
            CopyMime::Specific(mime) => CopyMimeView::Specific(mime@),
        }
    }
}

/// Bytes that are to be handed to a clipboard library.
pub struct ExtCopy {
    pub data: Vec<u8>,
    pub mime: CopyMime,
}

/// An [`ExtCopy`] as a mathematical value.
#[verifier::ext_equal]
pub struct ExtCopyView {
    pub data: Seq<u8>,
    pub mime: CopyMimeView,
}

impl View for ExtCopy {
    type V = ExtCopyView;

    open spec fn view(&self) -> ExtCopyView {
        ExtCopyView { data: self.data@, mime: self.mime@ }
    }
}

impl CommandView {
    /// What the command stores on the clipboard of an X server, where `text_atom` and `png_atom`
    /// are the targets of UTF-8 text and of images.
    pub open spec fn x11_store(self, text_atom: u32, png_atom: u32) -> Option<X11StoreView> {
        match self.data() {
            Some(data) => Some(
                X11StoreView {
                    target: if self is SetText {
                        text_atom
                    } else {
                        png_atom
                    },
                    data,
                },
            ),
            None => None,
        }
    }

    /// What the command hands to a clipboard library.
    pub open spec fn ext_copy(self) -> Option<ExtCopyView> {
        match self.data() {
            Some(data) => Some(
                ExtCopyView {
                    data,
                    mime: if self is SetText {
                        CopyMimeView::Text
                    } else {
                        CopyMimeView::Specific("image/png"@)
                    },
                },
            ),
            None => None,
        }
    }
}

/// What to store on the clipboard of an X server, where `text_atom` and `png_atom` are the targets
/// of UTF-8 text and of images; nothing for the command to end.
pub fn x11_store(command: WriterCommand, text_atom: u32, png_atom: u32) -> (store: Option<X11Store>)
    ensures
        optional::viewed(store) == command@.x11_store(text_atom, png_atom),
{
    match command {
        WriterCommand::SetText(text) => {
            Some(X11Store { target: text_atom, data: text.as_str().as_bytes_vec() })
        },
        WriterCommand::SetImagePng(data) => Some(X11Store { target: png_atom, data }),
        WriterCommand::Shutdown => None,
    }
}

/// What to hand to a clipboard library; nothing for the command to end.
pub fn ext_copy(command: WriterCommand) -> (copy: Option<ExtCopy>)
    ensures
        optional::viewed(copy) == command@.ext_copy(),
{
    match command {
        WriterCommand::SetText(text) => {
            Some(ExtCopy { data: text.as_str().as_bytes_vec(), mime: CopyMime::Text })
        },
        WriterCommand::SetImagePng(data) => {
            Some(ExtCopy { data, mime: CopyMime::Specific("image/png".to_string()) })
        },
        WriterCommand::Shutdown => None,
    }
}

/// Whether a writer's thread has ended in the course of several inputs.
pub open spec fn stopped(inputs: Seq<InputView>) -> bool {
    exists|i: int| 0 <= i < inputs.len() && (#[trigger] inputs[i]).action() is Stop
}

/// The content that a writer's thread publishes in the course of several inputs, in order.  It ends
/// with the first input that stops it.
pub open spec fn publications(inputs: Seq<InputView>) -> Seq<WriterContentView>
    decreases inputs.len(),
{
    if inputs.len() == 0 {
        Seq::empty()
    } else {
        let before = inputs.drop_last();
        match inputs.last().action() {
            WriterActionView::Publish(content) => if stopped(before) {
                publications(before)
            } else {
                publications(before).push(content)
            },
            _ => publications(before),
        }
    }
}

/// The commands among several inputs, in order.
pub open spec fn commands(inputs: Seq<InputView>) -> Seq<CommandView>
    decreases inputs.len(),
{
    if inputs.len() == 0 {
        Seq::empty()
    } else {
        match inputs.last() {
            InputView::Command(command) => commands(inputs.drop_last()).push(command),
            _ => commands(inputs.drop_last()),
        }
    }
}

impl<S, M, D> WriterView<S, M, D> {
    /// The state after several inputs.  A thread that has ended takes no notice of more.
    pub open spec fn after_inputs(self, inputs: Seq<InputView>) -> WriterView<S, M, D>
        decreases inputs.len(),
    {
        if inputs.len() == 0 {
            self
        } else {
            let before = inputs.drop_last();
            match inputs.last().action() {
                WriterActionView::Publish(content) => if stopped(before) {
                    self.after_inputs(before)
                } else {
                    self.after_inputs(before).after_set(content)
                },
                _ => self.after_inputs(before),
            }
        }
    }
}

/// Once content is the selection, a request for it is granted with exactly its bytes under every
/// type that was announced, and under no other; what was the selection before does not matter.
pub proof fn law_announced_types_are_served<S, M, D>(
    writer: WriterView<S, M, D>,
    content: WriterContentView,
    mime: Seq<char>,
)
    requires
        writer.ready(),
    ensures
        writer.announcement(content) == Some(content.mime_types),
        writer.after_set(content).source_action(SourceEventView::Send(mime)) == (
        if content.mime_types.contains(mime) {
            SourceActionView::Write(content.data)
        } else {
            SourceActionView::Nothing
        }),
{
}

/// While the connection is not set up, content is neither announced nor kept.
pub proof fn law_content_needs_a_connection<S, M, D>(
    writer: WriterView<S, M, D>,
    content: WriterContentView,
)
    requires
        !writer.ready(),
    ensures
        writer.announcement(content) is None,
        writer.after_set(content) == writer,
{
}

/// Inputs that do not stop a thread do not stop it any earlier.
proof fn lemma_not_stopped_before(inputs: Seq<InputView>)
    requires
        inputs.len() > 0,
        !stopped(inputs),
    ensures
        !stopped(inputs.drop_last()),
        !(inputs.last().action() is Stop),
{
    let before = inputs.drop_last();
    assert forall|i: int| 0 <= i < before.len() implies !((#[trigger] before[i]).action()
        is Stop) by {
        assert(before[i] == inputs[i]);
    }
    assert(inputs[inputs.len() - 1] == inputs.last());
}

/// While a writer's thread runs, it publishes the content of each command, once and in order, and
/// nothing else.
pub proof fn law_each_command_is_published(inputs: Seq<InputView>)
    requires
        !stopped(inputs),
    ensures
        publications(inputs).len() == commands(inputs).len(),
        forall|i: int|
            0 <= i < commands(inputs).len() ==> Some(#[trigger] publications(inputs)[i])
                == commands(inputs)[i].content(),
    decreases inputs.len(),
{
    if inputs.len() > 0 {
        lemma_not_stopped_before(inputs);
        law_each_command_is_published(inputs.drop_last());
    }
}

/// Once a writer's thread was told to end, or nobody can command it any more, it publishes nothing,
/// whatever inputs there might be.
pub proof fn law_nothing_is_published_after_the_end<S, M, D>(
    writer: WriterView<S, M, D>,
    inputs: Seq<InputView>,
    more: Seq<InputView>,
)
    requires
        stopped(inputs),
    ensures
        publications(inputs + more) == publications(inputs),
        writer.after_inputs(inputs + more) == writer.after_inputs(inputs),
    decreases more.len(),
{
    if more.len() == 0 {
        assert(inputs + more =~= inputs);
    } else {
        let before = inputs + more.drop_last();
        law_nothing_is_published_after_the_end(writer, inputs, more.drop_last());
        assert((inputs + more).drop_last() =~= before);
        let i = choose|i: int| 0 <= i < inputs.len() && (#[trigger] inputs[i]).action() is Stop;
        assert(before[i] == inputs[i]);
    }
}

/// What was published last is on the clipboard, and the connection is as it was.
pub proof fn law_last_publication_counts<S, M, D>(
    writer: WriterView<S, M, D>,
    inputs: Seq<InputView>,
)
    requires
        writer.ready(),
    ensures
        writer.after_inputs(inputs) == (WriterView {
            content: if publications(inputs).len() == 0 {
                writer.content
            } else {
                Some(publications(inputs).last())
            },
            ..writer
        }),
    decreases inputs.len(),
{
    if inputs.len() > 0 {
        law_last_publication_counts(writer, inputs.drop_last());
    }
}

/// What is served after any inputs is the content of the last command, under the names of its types
/// and under no other: the UTF-8 encoding of a text under the two names of text, an image under the
/// name of images.  Content of earlier commands is served no more.
pub proof fn law_last_command_is_served<S, M, D>(
    writer: WriterView<S, M, D>,
    inputs: Seq<InputView>,
    mime: Seq<char>,
)
    requires
        writer.ready(),
        !stopped(inputs),
        commands(inputs).len() > 0,
    ensures
        ({
            let served = writer.after_inputs(inputs).source_action(SourceEventView::Send(mime));
            match commands(inputs).last() {
                CommandView::SetText(text) => served == (if mime == "text/plain;charset=utf-8"@
                    || mime == "text/plain"@ {
                    SourceActionView::Write(vstd::utf8::encode_utf8(text))
                } else {
                    SourceActionView::Nothing
                }),
                CommandView::SetImagePng(data) => served == (if mime == "image/png"@ {
                    SourceActionView::Write(data)
                } else {
                    SourceActionView::Nothing
                }),
                CommandView::Shutdown => false,
            }
        }),
{
    let command = commands(inputs).last();
    let types = command.mime_types();
    let n = commands(inputs).len() - 1;
    law_each_command_is_published(inputs);
    law_last_publication_counts(writer, inputs);
    assert(Some(publications(inputs)[n]) == commands(inputs)[n].content());
    match command {
        CommandView::SetText(_) => {
            assert(types[0] == "text/plain;charset=utf-8"@);
            assert(types[1] == "text/plain"@);
        },
        CommandView::SetImagePng(_) => {
            assert(types[0] == "image/png"@);
        },
        CommandView::Shutdown => {},
    }
}

/// Whether one of several commands is the one to end.
pub open spec fn shut_down(commands: Seq<CommandView>) -> bool {
    exists|i: int| 0 <= i < commands.len() && #[trigger] commands[i] is Shutdown
}

/// What is stored on the clipboard of an X server in the course of several commands, in order.  The
/// thread ends with the command to end.
pub open spec fn stores(commands: Seq<CommandView>, text_atom: u32, png_atom: u32) -> Seq<
    X11StoreView,
>
    decreases commands.len(),
{
    if commands.len() == 0 {
        Seq::empty()
    } else {
        let earlier = stores(commands.drop_last(), text_atom, png_atom);
        if shut_down(commands.drop_last()) {
            earlier
        } else {
            earlier + optional::as_seq(commands.last().x11_store(text_atom, png_atom))
        }
    }
}

/// What is handed to a clipboard library in the course of several commands, in order.  The thread
/// ends with the command to end.
pub open spec fn copies(commands: Seq<CommandView>) -> Seq<ExtCopyView>
    decreases commands.len(),
{
    if commands.len() == 0 {
        Seq::empty()
    } else {
        let earlier = copies(commands.drop_last());
        if shut_down(commands.drop_last()) {
            earlier
        } else {
            earlier + optional::as_seq(commands.last().ext_copy())
        }
    }
}

/// Until it is told to end, the thread of an X11 writer stores the content of each command, and that
/// of a writer on a clipboard library hands it on: once, in order, and nothing else.
pub proof fn law_each_command_is_stored_or_copied(
    commands: Seq<CommandView>,
    text_atom: u32,
    png_atom: u32,
)
    requires
        !shut_down(commands),
    ensures
        stores(commands, text_atom, png_atom).len() == commands.len(),
        copies(commands).len() == commands.len(),
        forall|i: int|
            0 <= i < commands.len() ==> Some(#[trigger] stores(commands, text_atom, png_atom)[i])
                == commands[i].x11_store(text_atom, png_atom),
        forall|i: int|
            0 <= i < commands.len() ==> Some(#[trigger] copies(commands)[i])
                == commands[i].ext_copy(),
    decreases commands.len(),
{
    if commands.len() > 0 {
        let before = commands.drop_last();
        assert forall|i: int| 0 <= i < before.len() implies !(#[trigger] before[i] is Shutdown) by {
            assert(before[i] == commands[i]);
        }
        law_each_command_is_stored_or_copied(before, text_atom, png_atom);
        assert(!(commands[commands.len() - 1] is Shutdown));
    }
}

/// After the command to end, nothing is stored and nothing is handed on, whatever commands there
/// might be.
pub proof fn law_nothing_is_stored_or_copied_after_the_end(
    commands: Seq<CommandView>,
    more: Seq<CommandView>,
    text_atom: u32,
    png_atom: u32,
)
    requires
        shut_down(commands),
    ensures
        stores(commands + more, text_atom, png_atom) == stores(commands, text_atom, png_atom),
        copies(commands + more) == copies(commands),
    decreases more.len(),
{
    if more.len() == 0 {
        assert(commands + more =~= commands);
    } else {
        let before = commands + more.drop_last();
        law_nothing_is_stored_or_copied_after_the_end(
            commands,
            more.drop_last(),
            text_atom,
            png_atom,
        );
        assert((commands + more).drop_last() =~= before);
        let i = choose|i: int| 0 <= i < commands.len() && #[trigger] commands[i] is Shutdown;
        assert(before[i] == commands[i]);
    }
}

/// A writer's thread ends exactly when it is told to or when nobody can command it any more.
pub proof fn law_writer_ends_when_told(input: InputView)
    ensures
        input.action() is Stop <==> input is Disconnected || input == InputView::Command(
            CommandView::Shutdown,
        ),
{
}

/// Whatever the backend, a command puts the same bytes on the clipboard, and only the command to end
/// puts none.
pub proof fn law_backends_publish_the_same_bytes(
    command: CommandView,
    text_atom: u32,
    png_atom: u32,
)
    ensures
        command.data() is None <==> command is Shutdown,
        match command.data() {
            Some(data) => {
                &&& command.content() matches Some(content) && content.data == data
                &&& command.x11_store(text_atom, png_atom) matches Some(store) && store.data == data
                &&& command.ext_copy() matches Some(copy) && copy.data == data
            },
            None => {
                &&& command.content() is None
                &&& command.x11_store(text_atom, png_atom) is None
                &&& command.ext_copy() is None
            },
        },
{
}

/// A writer's thread looks after its connection twenty times a second.
pub proof fn law_commands_are_not_waited_for_long()
    ensures
        COMMAND_TIMEOUT_MILLIS * 20 == 1000,
{
}

/// A text is handed to a clipboard library as the UTF-8 encoding of all of it and as text, an image
/// as it is and under the name of images, however long they are; the command to end hands on
/// nothing.
pub proof fn law_copies_have_their_type(text: Seq<char>, data: Seq<u8>)
    ensures
        CommandView::SetText(text).ext_copy() matches Some(copy) && copy.mime is Text && copy.data
            == vstd::utf8::encode_utf8(text),
        CommandView::SetImagePng(data).ext_copy() matches Some(copy) && copy.mime
            == CopyMimeView::Specific("image/png"@) && copy.data == data,
        CommandView::Shutdown.ext_copy() is None,
{
}

/// A text is stored under the target of text as the UTF-8 encoding of all of it, and an image under
/// the target of images as it is; the command to end stores nothing.
pub proof fn law_stores_have_their_target(
    text: Seq<char>,
    data: Seq<u8>,
    text_atom: u32,
    png_atom: u32,
)
    ensures
        CommandView::SetText(text).x11_store(text_atom, png_atom) matches Some(store)
            && store.target == text_atom && store.data == vstd::utf8::encode_utf8(text),
        CommandView::SetImagePng(data).x11_store(text_atom, png_atom) matches Some(store)
            && store.target == png_atom && store.data == data,
        CommandView::Shutdown.x11_store(text_atom, png_atom) is None,
{
}

/// A text is published as the UTF-8 encoding of all of it under the two names of text, the more
/// telling one first, and an image as it is under its one name; the command to end publishes
/// nothing.
pub proof fn law_publications_have_their_types(text: Seq<char>, data: Seq<u8>)
    ensures
        CommandView::SetText(text).data() == Some(vstd::utf8::encode_utf8(text)),
        CommandView::SetImagePng(data).data() == Some(data),
        CommandView::Shutdown.data() is None,
        CommandView::SetText(text).content() matches Some(content) && content.data
            == vstd::utf8::encode_utf8(text) && content.mime_types.len() == 2
            && content.mime_types[0] == "text/plain;charset=utf-8"@ && content.mime_types[1]
            == "text/plain"@,
        CommandView::SetImagePng(data).content() matches Some(content) && content.data == data
            && content.mime_types.len() == 1 && content.mime_types[0] == "image/png"@,
        CommandView::Shutdown.content() is None,
{
}

/// A command with content is published with that content, the end of the commands ends the thread,
/// and while there is no command the connection is looked after.
pub proof fn law_inputs_have_their_action(text: Seq<char>, data: Seq<u8>)
    ensures
        InputView::Command(CommandView::SetText(text)).action() matches WriterActionView::Publish(
            content,
        ) && CommandView::SetText(text).content() == Some(content),
        InputView::Command(CommandView::SetImagePng(data)).action()
            matches WriterActionView::Publish(content) && CommandView::SetImagePng(data).content()
            == Some(content),
        InputView::Command(CommandView::Shutdown).action() is Stop,
        InputView::Disconnected.action() is Stop,
        InputView::Timeout.action() is Flush,
{
}

/// With a manager and a device, content takes the place of what was on the clipboard and is announced
/// under all its types, in their order; without one of them nothing happens.  The connection stays
/// as it is, and a seat does not matter.
pub proof fn law_content_replaces_content<S, M, D>(
    writer: WriterView<S, M, D>,
    content: WriterContentView,
)
    ensures
        writer.after_set(content).globals == writer.globals,
        writer.after_set(content).device == writer.device,
        writer.globals.manager is Some && writer.device is Some ==> {
            &&& writer.after_set(content).content == Some(content)
            &&& writer.announcement(content) == Some(content.mime_types)
        },
        writer.globals.manager is None || writer.device is None ==> {
            &&& writer.after_set(content).content == writer.content
            &&& writer.announcement(content) is None
        },
{
}

/// A request is granted, with all the bytes there are, exactly if there is content that can be had
/// under the type that is asked for; the state of the connection does not matter.  A source that is
/// not the selection any more is destroyed in every state.
pub proof fn law_requests_are_granted<S, M, D>(writer: WriterView<S, M, D>, mime: Seq<char>)
    ensures
        writer.content is None ==> writer.source_action(SourceEventView::Send(mime)) is Nothing,
        writer.content matches Some(content) ==> {
            let action = writer.source_action(SourceEventView::Send(mime));
            &&& (exists|i: int|
                0 <= i < content.mime_types.len() && #[trigger] content.mime_types[i] == mime)
                ==> action == SourceActionView::Write(content.data)
            &&& (forall|i: int|
                0 <= i < content.mime_types.len() ==> #[trigger] content.mime_types[i] != mime)
                ==> action is Nothing
        },
        writer.source_action(SourceEventView::Cancelled) is Destroy,
{
}

/// The mathematical values hold what the commands and the inputs hold.
pub proof fn law_command_views(text: String, data: Vec<u8>, command: WriterCommand, mime: String)
    ensures
        WriterCommand::SetText(text)@ == CommandView::SetText(text@),
        WriterCommand::SetImagePng(data)@ == CommandView::SetImagePng(data@),
        WriterCommand::Shutdown@ == CommandView::Shutdown,
        WriterInput::Command(command)@ == InputView::Command(command@),
        WriterInput::Timeout@ == InputView::Timeout,
        WriterInput::Disconnected@ == InputView::Disconnected,
        SourceEvent::Send(mime)@ == SourceEventView::Send(mime@),
        SourceEvent::Cancelled@ == SourceEventView::Cancelled,
        SourceAction::Write(data)@ == SourceActionView::Write(data@),
        SourceAction::Destroy@ == SourceActionView::Destroy,
        SourceAction::Nothing@ == SourceActionView::Nothing,
{
}

/// The mathematical values hold what the content and the state of a writer hold.
pub proof fn law_writer_views<S, M, D>(
    content: WriterContent,
    state: WriterState<S, M, D>,
    store: X11Store,
    copy: ExtCopy,
    mime: String,
)
    ensures
        content@.data == content.data@,
        content@.mime_types == content.mime_types.deep_view(),
        WriterAction::Publish(content)@ == WriterActionView::Publish(content@),
        WriterAction::Flush@ == WriterActionView::Flush,
        WriterAction::Stop@ == WriterActionView::Stop,
        state@.globals == state.globals,
        state@.device == state.device,
        state.pending_content is None ==> state@.content is None,
        state.pending_content is Some ==> state@.content == Some(state.pending_content->0@),
        store@.target == store.target,
        store@.data == store.data@,
        copy@.data == copy.data@,
        copy@.mime == copy.mime@,
        CopyMime::Text@ == CopyMimeView::Text,
        CopyMime::Specific(mime)@ == CopyMimeView::Specific(mime@),
{
}

} // verus!
