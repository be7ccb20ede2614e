use vstd::prelude::*;

use crate::dnd_action::DndAction;

verus! {

/// Errors happening when requesting selection contents.
#[derive(Clone, Copy, Debug, PartialEq, Eq, Structural)]
pub enum SelectionRequestError {
    /// Requested mime type is not available
    InvalidMimetype,
    /// Requesting server side selection contents is not supported
    ServerSideSelection,
    /// There is no active selection
    NoSelection,
}

impl SelectionRequestError {
    /// The text that describes the error.
    pub fn message(&self) -> (r: &'static str)
        ensures
            r@ == match self {
                SelectionRequestError::InvalidMimetype => "Requested mime type is not available"@,
                SelectionRequestError::ServerSideSelection => "Current selection is server-side"@,
                SelectionRequestError::NoSelection => "No active selection to query"@,
            },
    {
        match self {
            SelectionRequestError::InvalidMimetype => "Requested mime type is not available",
            SelectionRequestError::ServerSideSelection => "Current selection is server-side",
            SelectionRequestError::NoSelection => "No active selection to query",
        }
    }
}

/// What a data source offers: its mime types and its drag'n'drop actions.
pub struct SourceMetadata {
    /// The mime types the source can provide.
    pub mime_types: Vec<String>,
    /// The drag'n'drop actions the source supports.
    pub dnd_action: DndAction,
}

impl SourceMetadata {
    /// The metadata of a fresh data source: no mime type and no action.
    pub fn new() -> (r: SourceMetadata)
        ensures
            r@.mime_types.len() == 0,
            r@.dnd_action == 0,
    {
        SourceMetadata { mime_types: Vec::new(), dnd_action: DndAction::empty() }
    }
}

/// The mathematical value of a [`SourceMetadata`].
pub struct MetadataView {
    pub mime_types: Seq<Seq<char>>,
    pub dnd_action: u32,
}

/// The mime types of a list of strings, as sequences of characters.
pub open spec fn mime_seq(mime_types: Seq<String>) -> Seq<Seq<char>> {
    mime_types.map_values(|m: String| m@)
}

impl View for SourceMetadata {
    type V = MetadataView;

    open spec fn view(&self) -> MetadataView {
        MetadataView { mime_types: mime_seq(self.mime_types@), dnd_action: self.dnd_action@ }
    }
}

/// The selection of a seat: none, one that a client set through its data
/// source `S`, or one that the compositor set with its own user data `U`.
pub enum Selection<S, U> {
    /// No selection.
    Empty,
    /// A selection set by a client.
    Client { source: S, metadata: SourceMetadata },
    /// A selection set by the compositor.
    Compositor { metadata: SourceMetadata, user_data: U },
}

/// The mathematical value of a [`Selection`].
pub enum SelectionView<S, U> {
    Empty,
    Client { source: S, metadata: MetadataView },
    Compositor { metadata: MetadataView, user_data: U },
}

impl<S, U> View for Selection<S, U> {
    type V = SelectionView<S, U>;

    open spec fn view(&self) -> SelectionView<S, U> {
        match self {
            Selection::Empty => SelectionView::Empty,
            Selection::Client { source, metadata } => SelectionView::Client {
                source: *source,
                metadata: metadata@,
            },
            Selection::Compositor { metadata, user_data } => SelectionView::Compositor {
                metadata: metadata@,
                user_data: *user_data,
            },
        }
    }
}

/// The answer to a request for the contents of `selection` in `mime_type`: the
/// client source to forward the request to, or the error.
pub open spec fn selection_request<S, U>(
    selection: SelectionView<S, U>,
    mime_type: Seq<char>,
) -> Result<S, SelectionRequestError> {
    match selection {
        SelectionView::Empty => Err(SelectionRequestError::NoSelection),
        SelectionView::Client { source, metadata } => if metadata.mime_types.contains(mime_type) {
            Ok(source)
        } else {
            Err(SelectionRequestError::InvalidMimetype)
        },
        SelectionView::Compositor { metadata, .. } => if metadata.mime_types.contains(mime_type) {
            Err(SelectionRequestError::ServerSideSelection)
        } else {
            Err(SelectionRequestError::InvalidMimetype)
        },
    }
}

/// What to do when a client reads the seat's selection in some mime type.
#[derive(Debug, PartialEq, Eq)]
pub enum ClientRead<S, U> {
    /// The compositor set the selection: hand the read to the compositor's
    /// `send_selection` callback, with the selection's user data.
    SendSelection(U),
    /// A client set the selection: forward the read to its data source.
    Forward(S),
    /// There is nothing to read in that mime type: drop the read.
    Ignore,
}

/// The answer to a client's read of `selection` in `mime_type`: it goes to
/// whoever set the selection, provided the selection offers that mime type.
pub open spec fn client_read<S, U>(selection: SelectionView<S, U>, mime_type: Seq<char>) -> ClientRead<
    S,
    U,
> {
    match selection {
        SelectionView::Empty => ClientRead::Ignore,
        SelectionView::Client { source, metadata } => if metadata.mime_types.contains(mime_type) {
            ClientRead::Forward(source)
        } else {
            ClientRead::Ignore
        },
        SelectionView::Compositor { metadata, user_data } => if metadata.mime_types.contains(
            mime_type,
        ) {
            ClientRead::SendSelection(user_data)
        } else {
            ClientRead::Ignore
        },
    }
}

/// The user data of `selection`, where the compositor set it.
pub open spec fn selection_user_data<S, U>(selection: SelectionView<S, U>) -> Option<U> {
    match selection {
        SelectionView::Compositor { user_data, .. } => Some(user_data),
        _ => None,
    }
}

/// The selection that the compositor sets with `mime_types` and `user_data`:
/// it supports no drag'n'drop action.
pub open spec fn compositor_selection<S, U>(mime_types: Seq<Seq<char>>, user_data: U) -> SelectionView<S, U> {
    SelectionView::Compositor {
        metadata: MetadataView { mime_types, dnd_action: 0 },
        user_data,
    }
}

/// The mime types that `selection` offers, or none when there is no
/// selection.
pub open spec fn offered_mime_types<S, U>(selection: SelectionView<S, U>) -> Option<
    Seq<Seq<char>>,
> {
    match selection {
        SelectionView::Empty => None,
        SelectionView::Client { metadata, .. } => Some(metadata.mime_types),
        SelectionView::Compositor { metadata, .. } => Some(metadata.mime_types),
    }
}

/// Whether `mime_types` holds `mime_type`.
fn offers_mime_type(mime_types: &Vec<String>, mime_type: &String) -> (r: bool)
    ensures
        r == mime_seq(mime_types@).contains(mime_type@),
{
    let mut i: usize = 0;
    while i < mime_types.len()
        invariant
            i <= mime_types.len(),
            forall|j: int| 0 <= j < i ==> mime_types@[j]@ != mime_type@,
        decreases mime_types.len() - i,
    {
        if mime_types[i] == *mime_type {
            assert(mime_seq(mime_types@)[i as int] == mime_type@);
            return true;
        }
        i = i + 1;
    }
    assert forall|j: int| 0 <= j < mime_seq(mime_types@).len() implies mime_seq(
        mime_types@,
    )[j] != mime_type@ by {
        assert(mime_seq(mime_types@)[j] == mime_types@[j]@);
    }
    false
}

/// The data-device state of a seat: the client that has the data-device focus
/// (`C` identifies a client) and the current selection.
pub struct SeatData<C, S, U> {
    focus: Option<C>,
    selection: Selection<S, U>,
}

/// The mathematical value of a [`SeatData`].
pub struct SeatDataView<C, S, U> {
    pub focus: Option<C>,
    pub selection: SelectionView<S, U>,
}

impl<C, S, U> View for SeatData<C, S, U> {
    type V = SeatDataView<C, S, U>;

    closed spec fn view(&self) -> SeatDataView<C, S, U> {
        SeatDataView { focus: self.focus, selection: self.selection@ }
    }
}

impl<C, S, U> SeatData<C, S, U> {
    /// A seat with no focused client and no selection.
    pub fn new() -> (r: Self)
        ensures
            r@.focus is None,
            r@.selection is Empty,
    {
        SeatData { focus: None, selection: Selection::Empty }
    }

    /// Gives the data-device focus to `client`, or to no client; the selection
    /// stays.
    pub fn set_focus(&mut self, client: Option<C>)
        ensures
            final(self)@.focus == client,
            final(self)@.selection == old(self)@.selection,
    {
        self.focus = client;
    }

    /// Makes `selection` the seat's selection; the focus stays.
    pub fn set_selection(&mut self, selection: Selection<S, U>)
        ensures
            final(self)@.selection == selection@,
            final(self)@.focus == old(self)@.focus,
    {
        self.selection = selection;
    }

    /// The current selection.
    pub fn get_selection(&self) -> (r: &Selection<S, U>)
        ensures
            r@ == self@.selection,
    {
        &self.selection
    }

    /// What the seat is to announce to its data devices: the focused client,
    /// and the mime types of the current selection that are offered to that
    /// client's devices, or no offer when there is no selection. Nothing is
    /// announced without a focused client.
    pub fn selection_offer(&self) -> (r: Option<(&C, Option<&Vec<String>>)>)
        ensures
            match r {
                None => self@.focus is None,
                Some((client, offer)) => {
                    &&& self@.focus == Some(*client)
                    &&& match offer {
                        None => offered_mime_types(self@.selection) is None,
                        Some(m) => offered_mime_types(self@.selection) == Some(mime_seq(m@)),
                    }
                },
            },
    {
        match &self.focus {
            None => None,
            Some(client) => {
                let offer = match &self.selection {
                    Selection::Empty => None,
                    Selection::Client { metadata, .. } => Some(&metadata.mime_types),
                    Selection::Compositor { metadata, .. } => Some(&metadata.mime_types),
                };
                Some((client, offer))
            },
        }
    }

    /// The client that has the data-device focus, if any.
    pub fn get_focus(&self) -> (r: &Option<C>)
        ensures
            *r == self@.focus,
    {
        &self.focus
    }
}

/// Sets the data device focus to a certain client for the given seat.
pub fn set_data_device_focus<C, S, U>(seat: &mut SeatData<C, S, U>, client: Option<C>)
    ensures
        final(seat)@.focus == client,
        final(seat)@.selection == old(seat)@.selection,
{
    seat.set_focus(client);
}

/// Sets a compositor-provided selection for this seat, with the mime types
/// that it makes available and the compositor's user data.
pub fn set_data_device_selection<C, S, U>(
    seat: &mut SeatData<C, S, U>,
    mime_types: Vec<String>,
    user_data: U,
)
    ensures
        final(seat)@.selection == compositor_selection::<S, U>(mime_seq(mime_types@), user_data),
        final(seat)@.focus == old(seat)@.focus,
{
    seat.set_selection(
        Selection::Compositor {
            metadata: SourceMetadata { mime_types, dnd_action: DndAction::empty() },
            user_data,
        },
    );
}

/// Answers a request for the current selection of the seat in `mime_type`:
/// the client source to which the request is to be forwarded, or why there
/// is none.
pub fn request_data_device_client_selection<C, S, U>(
    seat: &SeatData<C, S, U>,
    mime_type: String,
) -> (r: Result<&S, SelectionRequestError>)
    ensures
        match r {
            Ok(source) => selection_request(seat@.selection, mime_type@) == Ok::<
                S,
                SelectionRequestError,
            >(*source),
            Err(e) => selection_request(seat@.selection, mime_type@) == Err::<
                S,
                SelectionRequestError,
            >(e),
        },
{
    match seat.get_selection() {
        Selection::Client { source, metadata } => {
            if !offers_mime_type(&metadata.mime_types, &mime_type) {
                Err(SelectionRequestError::InvalidMimetype)
            } else {
                Ok(source)
            }
        },
        Selection::Compositor { metadata, .. } => {
            if !offers_mime_type(&metadata.mime_types, &mime_type) {
                Err(SelectionRequestError::InvalidMimetype)
            } else {
                Err(SelectionRequestError::ServerSideSelection)
            }
        },
        Selection::Empty => Err(SelectionRequestError::NoSelection),
    }
}

/// Answers a client's read of the seat's selection in `mime_type`: to the
/// compositor's `send_selection` callback with the selection's user data, to
/// the client source that set it, or nowhere when the selection does not
/// offer that mime type.
pub fn answer_client_read<'a, C, S, U>(seat: &'a SeatData<C, S, U>, mime_type: &String) -> (r:
    ClientRead<&'a S, &'a U>)
    ensures
        match r {
            ClientRead::SendSelection(u) => client_read(seat@.selection, mime_type@)
                == ClientRead::<S, U>::SendSelection(*u),
            ClientRead::Forward(s) => client_read(seat@.selection, mime_type@) == ClientRead::<
                S,
                U,
            >::Forward(*s),
            ClientRead::Ignore => client_read(seat@.selection, mime_type@) is Ignore,
        },
{
    match seat.get_selection() {
        Selection::Client { source, metadata } => {
            if offers_mime_type(&metadata.mime_types, mime_type) {
                ClientRead::Forward(source)
            } else {
                ClientRead::Ignore
            }
        },
        Selection::Compositor { metadata, user_data } => {
            if offers_mime_type(&metadata.mime_types, mime_type) {
                ClientRead::SendSelection(user_data)
            } else {
                ClientRead::Ignore
            }
        },
        Selection::Empty => ClientRead::Ignore,
    }
}

/// Gets the user data of the current selection, if the compositor set it.
pub fn current_data_device_selection_userdata<C, S, U>(seat: &SeatData<C, S, U>) -> (r: Option<&U>)
    ensures
        match r {
            Some(u) => selection_user_data(seat@.selection) == Some(*u),
            None => selection_user_data(seat@.selection) is None,
        },
{
    match seat.get_selection() {
        Selection::Compositor { user_data, .. } => Some(user_data),
        _ => None,
    }
}

/// Clears the current selection for this seat.
pub fn clear_data_device_selection<C, S, U>(seat: &mut SeatData<C, S, U>)
    ensures
        final(seat)@.selection is Empty,
        final(seat)@.focus == old(seat)@.focus,
{
    seat.set_selection(Selection::Empty);
}

/// A selection that the compositor set is read back as set: its user data is
/// the one given, and a request for its contents is refused as server-side
/// for an offered mime type and as unavailable for any other.
pub proof fn lemma_compositor_selection_read_back<S, U>(
    mime_types: Seq<Seq<char>>,
    user_data: U,
    mime_type: Seq<char>,
)
    ensures
        selection_user_data(compositor_selection::<S, U>(mime_types, user_data)) == Some(
            user_data,
        ),
        compositor_selection::<S, U>(mime_types, user_data) is Compositor,
        compositor_selection::<S, U>(mime_types, user_data)->Compositor_metadata.mime_types
            == mime_types,
        compositor_selection::<S, U>(mime_types, user_data)->Compositor_metadata.dnd_action == 0,
        selection_request(compositor_selection::<S, U>(mime_types, user_data), mime_type) == if mime_types.contains(mime_type) {
            Err::<S, SelectionRequestError>(SelectionRequestError::ServerSideSelection)
        } else {
            Err::<S, SelectionRequestError>(SelectionRequestError::InvalidMimetype)
        },
{
}

/// Without a selection there is no user data, and every request is refused
/// for want of a selection.
pub proof fn lemma_empty_selection_refuses<S, U>(mime_type: Seq<char>)
    ensures
        selection_user_data(SelectionView::<S, U>::Empty) is None,
        selection_request(SelectionView::<S, U>::Empty, mime_type) == Err::<
            S,
            SelectionRequestError,
        >(SelectionRequestError::NoSelection),
{
}

/// A request is forwarded only to a client's source, and exactly when that
/// source offers the requested mime type; user data exists only for a
/// selection that the compositor set.
pub proof fn lemma_only_client_selection_is_forwarded<S, U>(
    selection: SelectionView<S, U>,
    mime_type: Seq<char>,
)
    ensures
        selection_request(selection, mime_type) is Ok <==> (selection is Client
            && selection->Client_metadata.mime_types.contains(mime_type)),
        selection_request(selection, mime_type) is Ok ==> selection_request(
            selection,
            mime_type,
        ) == Ok::<S, SelectionRequestError>(selection->Client_source),
        selection_user_data(selection) is Some <==> selection is Compositor,
{
}

/// After the compositor sets a selection, the focused client is offered
/// exactly its mime types; after the selection is cleared, it is offered none.
pub proof fn lemma_offer_follows_selection<S, U>(mime_types: Seq<Seq<char>>, user_data: U)
    ensures
        offered_mime_types(compositor_selection::<S, U>(mime_types, user_data)) == Some(
            mime_types,
        ),
        offered_mime_types(SelectionView::<S, U>::Empty) is None,
{
}

/// Whenever a client reads a compositor-set selection in a mime type that it
/// offers, the read reaches the `send_selection` callback with the selection's
/// user data; a read of a client-set selection reaches the source exactly where
/// a request from the compositor would.
pub proof fn lemma_client_reads_reach_the_owner<S, U>(
    selection: SelectionView<S, U>,
    mime_type: Seq<char>,
)
    ensures
        selection is Compositor && selection->Compositor_metadata.mime_types.contains(mime_type)
            ==> client_read(selection, mime_type) == ClientRead::<S, U>::SendSelection(
            selection->Compositor_user_data,
        ),
        client_read(selection, mime_type) is Forward <==> selection_request(
            selection,
            mime_type,
        ) is Ok,
        selection_request(selection, mime_type) is Ok ==> client_read(selection, mime_type)
            == ClientRead::<S, U>::Forward(selection_request(selection, mime_type)->Ok_0),
{
}

/// A request is refused for want of a selection exactly when the seat has
/// none. For a client's selection the answer depends only on whether its
/// mime types hold the requested one, not on its drag'n'drop actions: the
/// source if they do, `InvalidMimetype` if they do not.
pub proof fn lemma_request_answers<S, U>(
    selection: SelectionView<S, U>,
    source: S,
    mime_types: Seq<Seq<char>>,
    actions: u32,
    other_actions: u32,
    mime_type: Seq<char>,
)
    ensures
        selection_request(selection, mime_type) == Err::<S, SelectionRequestError>(
            SelectionRequestError::NoSelection,
        ) <==> selection is Empty,
        mime_types.contains(mime_type) ==> selection_request(
            SelectionView::<S, U>::Client {
                source,
                metadata: MetadataView { mime_types, dnd_action: actions },
            },
            mime_type,
        ) == Ok::<S, SelectionRequestError>(source),
        !mime_types.contains(mime_type) ==> selection_request(
            SelectionView::<S, U>::Client {
                source,
                metadata: MetadataView { mime_types, dnd_action: actions },
            },
            mime_type,
        ) == Err::<S, SelectionRequestError>(SelectionRequestError::InvalidMimetype),
        selection_request(
            SelectionView::<S, U>::Client {
                source,
                metadata: MetadataView { mime_types, dnd_action: actions },
            },
            mime_type,
        ) == selection_request(
            SelectionView::<S, U>::Client {
                source,
                metadata: MetadataView { mime_types, dnd_action: other_actions },
            },
            mime_type,
        ),
{
}

/// A client's read reaches the compositor's `send_selection` only for a
/// compositor-set selection that offers the mime type, and a client source
/// only for its own selection when that offers the mime type; any other read
/// is dropped.
pub proof fn lemma_client_read_needs_offered_mime_type<S, U>(
    selection: SelectionView<S, U>,
    mime_type: Seq<char>,
)
    ensures
        client_read(selection, mime_type) is SendSelection <==> (selection is Compositor
            && selection->Compositor_metadata.mime_types.contains(mime_type)),
        client_read(selection, mime_type) is Forward <==> (selection is Client
            && selection->Client_metadata.mime_types.contains(mime_type)),
        client_read(selection, mime_type) is SendSelection ==> client_read(selection, mime_type)
            == ClientRead::<S, U>::SendSelection(selection->Compositor_user_data),
        client_read(selection, mime_type) is Forward ==> client_read(selection, mime_type)
            == ClientRead::<S, U>::Forward(selection->Client_source),
{
}

/// Any selection, whoever set it and whatever its drag'n'drop actions, is
/// offered with exactly its mime types; there is no offer only when there is
/// no selection.
pub proof fn lemma_every_selection_is_offered<S, U>(selection: SelectionView<S, U>)
    ensures
        offered_mime_types(selection) is None <==> selection is Empty,
        selection is Client ==> offered_mime_types(selection) == Some(
            selection->Client_metadata.mime_types,
        ),
        selection is Compositor ==> offered_mime_types(selection) == Some(
            selection->Compositor_metadata.mime_types,
        ),
{
}

} // verus!
