//! The keymap retriever: what to do with a transferred keymap resource, and
//! how the bytes read from it become the keymap text.

use crate::text::string_from_utf8;
use vstd::prelude::*;
use vstd::utf8::*;

verus! {

/// Format tag of a keymap description.
#[derive(Clone, Copy, Debug, PartialEq, Eq, Structural)]
pub enum KeymapFormat {
    /// No keymap is attached.
    NoKeymap,
    /// The text keymap format, the only one that is read.
    XkbV1,
    /// A tag this core does not know.
    Other,
}

impl KeymapFormat {
    pub open spec fn spec_from_wire(code: u32) -> KeymapFormat {
        if code == 0 {
            KeymapFormat::NoKeymap
        } else if code == 1 {
            KeymapFormat::XkbV1
        } else {
            KeymapFormat::Other
        }
    }

    /// The format that the number `code` stands for on the wire.
    #[verifier::when_used_as_spec(spec_from_wire)]
    pub fn from_wire(code: u32) -> (format: KeymapFormat)
        ensures
            format == Self::spec_from_wire(code),
    {
        if code == 0 {
            KeymapFormat::NoKeymap
        } else if code == 1 {
            KeymapFormat::XkbV1
        } else {
            KeymapFormat::Other
        }
    }

    pub open spec fn spec_is_text(self) -> bool {
        self is XkbV1
    }

    /// Whether a keymap of this format is text that the retriever reads.
    #[verifier::when_used_as_spec(spec_is_text)]
    pub fn is_text(self) -> (text: bool)
        ensures
            text == self.spec_is_text(),
    {
        match self {
            KeymapFormat::XkbV1 => true,
            _ => false,
        }
    }
}

/// A resource that the server handed over with an event.
///
/// The value stands for the sole ownership of that resource: it can be moved
/// but not copied, and whoever ends up holding it has to release it.
#[derive(Debug, PartialEq, Eq)]
pub struct Descriptor {
    pub raw: i32,
}

/// What the driver has to do with the resource of one keymap description.
/// Either way the resource is released at the end, and nothing else is done
/// with it.
#[derive(Debug, PartialEq, Eq)]
pub enum Retrieval {
    /// Move to `offset`, read up to `limit` bytes or to the end of the
    /// resource, whichever comes first, then release the resource, whether or
    /// not the read succeeded.
    ReadThenRelease { resource: Descriptor, offset: u64, limit: u32 },
    /// Release the resource unread.
    Release { resource: Descriptor },
}

impl Retrieval {
    /// The resource that this plan disposes of.
    pub open spec fn resource(self) -> Descriptor {
        match self {
            Retrieval::ReadThenRelease { resource, .. } => resource,
            Retrieval::Release { resource } => resource,
        }
    }
}

/// The plan for a keymap description: a text keymap is read from its first
/// byte, over at most `size` bytes; any other is released unread.
pub open spec fn retrieval(format: KeymapFormat, resource: Descriptor, size: u32) -> Retrieval {
    if format.spec_is_text() {
        Retrieval::ReadThenRelease { resource, offset: 0, limit: size }
    } else {
        Retrieval::Release { resource }
    }
}

/// Handles a keymap description. The resource passes into the returned plan,
/// which is the only thing that is ever done for this description.
pub fn on_keymap(format: KeymapFormat, resource: Descriptor, size: u32) -> (plan: Retrieval)
    ensures
        plan == retrieval(format, resource, size),
        plan.resource() == resource,
{
    if format.is_text() {
        Retrieval::ReadThenRelease { resource, offset: 0, limit: size }
    } else {
        Retrieval::Release { resource }
    }
}

/// What came of reading a resource.
#[derive(Debug, PartialEq, Eq)]
pub enum ReadOutcome {
    /// The bytes that were read.
    Contents(Vec<u8>),
    /// The resource could not be read: the descriptor was invalid, or the
    /// read failed.
    Failed,
}

impl View for ReadOutcome {
    type V = Option<Seq<u8>>;

    open spec fn view(&self) -> Option<Seq<u8>> {
        match self {
            ReadOutcome::Contents(bytes) => Some(bytes@),
            ReadOutcome::Failed => None,
        }
    }
}

/// Why a keymap resource yielded no text.
#[derive(Clone, Copy, Debug, PartialEq, Eq, Structural)]
pub enum DecodeError {
    /// The resource could not be read.
    Unreadable,
    /// The bytes that were read are not text.
    NotText,
}

/// The first `limit` bytes of `contents`, or all of them where there are fewer.
pub open spec fn bounded(contents: Seq<u8>, limit: u32) -> Seq<u8> {
    if contents.len() <= limit {
        contents
    } else {
        contents.take(limit as int)
    }
}

/// The text that `bytes` encode.
pub open spec fn decoded(bytes: Seq<u8>) -> Result<Seq<char>, DecodeError> {
    if valid_utf8(bytes) {
        Ok(decode_utf8(bytes))
    } else {
        Err(DecodeError::NotText)
    }
}

/// The keymap text that a read yields under the limit `limit`, where `read`
/// holds the bytes that were read, if the read succeeded.
pub open spec fn text_of(read: Option<Seq<u8>>, limit: u32) -> Result<Seq<char>, DecodeError> {
    match read {
        Some(bytes) => decoded(bounded(bytes, limit)),
        None => Err(DecodeError::Unreadable),
    }
}

/// Turns what was read from a keymap resource into the keymap text.
///
/// Bytes past `limit` are left out, so it does not matter whether the driver
/// already stopped reading there. The text is passed through as it is: no
/// byte is added, dropped or changed.
pub fn keymap_text(read: ReadOutcome, limit: u32) -> (text: Result<String, DecodeError>)
    ensures
        match text_of(read@, limit) {
            Ok(chars) => text matches Ok(s) && s@ == chars,
            Err(error) => text == Err::<String, DecodeError>(error),
        },
        text matches Ok(s) ==> (read@ matches Some(bytes) && encode_utf8(s@) == bounded(
            bytes,
            limit,
        )),
{
    match read {
        ReadOutcome::Failed => Err(DecodeError::Unreadable),
        ReadOutcome::Contents(bytes) => {
            let mut kept = bytes;
            kept.truncate(limit as usize);
            assert(kept@ == bounded(bytes@, limit));
            match string_from_utf8(kept) {
                Some(s) => {
                    proof {
                        encode_utf8_decode_utf8(s@);
                    }
                    Ok(s)
                },
                None => Err(DecodeError::NotText),
            }
        },
    }
}

/// A transferred resource as the system holds it: its bytes, and the position
/// from which the next read starts. The server may have left that position
/// anywhere.
pub struct ResourceState {
    pub contents: Seq<u8>,
    pub cursor: nat,
}

impl ResourceState {
    /// The resource after its position was set to `offset`.
    pub open spec fn seek(self, offset: nat) -> ResourceState {
        ResourceState { contents: self.contents, cursor: offset }
    }

    /// The bytes that a read of at most `limit` bytes returns: those from the
    /// position on, up to `limit` of them or to the end of the resource.
    pub open spec fn read(self, limit: nat) -> Seq<u8> {
        if self.cursor >= self.contents.len() {
            Seq::empty()
        } else if self.cursor + limit >= self.contents.len() {
            self.contents.skip(self.cursor as int)
        } else {
            self.contents.subrange(self.cursor as int, (self.cursor + limit) as int)
        }
    }
}

/// The bytes that carrying out `plan` reads from a resource found in `state`,
/// or `None` where the plan reads nothing.
pub open spec fn bytes_read(plan: Retrieval, state: ResourceState) -> Option<Seq<u8>> {
    match plan {
        Retrieval::ReadThenRelease { offset, limit, .. } => Some(
            state.seek(offset as nat).read(limit as nat),
        ),
        Retrieval::Release { .. } => None,
    }
}

/// What is delivered for a keymap description whose resource is found in
/// `state` and can be read: nothing, the keymap text, or the reason why there
/// is none. This is what [`keymap_text`] makes of the bytes that the plan of
/// [`on_keymap`] reads.
pub open spec fn delivery(
    format: KeymapFormat,
    resource: Descriptor,
    size: u32,
    state: ResourceState,
) -> Option<Result<Seq<char>, DecodeError>> {
    let plan = retrieval(format, resource, size);
    match plan {
        Retrieval::ReadThenRelease { limit, .. } => Some(text_of(bytes_read(plan, state), limit)),
        Retrieval::Release { .. } => None,
    }
}

/// A text keymap is delivered as the bytes of its resource from the first
/// one on, up to `size` of them, wherever the position of the resource stood
/// when the description arrived. Where the resource holds no more than
/// `size` bytes, that is all of it, and a text that is delivered encodes to
/// exactly the bytes of the resource.
pub proof fn law_text_keymap_is_read_from_start(
    resource: Descriptor,
    size: u32,
    state: ResourceState,
)
    ensures
        delivery(KeymapFormat::XkbV1, resource, size, state) == Some(
            decoded(bounded(state.contents, size)),
        ),
        forall|cursor: nat|
            delivery(KeymapFormat::XkbV1, resource, size, state) == #[trigger] delivery(
                KeymapFormat::XkbV1,
                resource,
                size,
                ResourceState { contents: state.contents, cursor },
            ),
        state.contents.len() <= size ==> delivery(KeymapFormat::XkbV1, resource, size, state)
            == Some(decoded(state.contents)),
        state.contents.len() <= size && valid_utf8(state.contents) ==> (delivery(
            KeymapFormat::XkbV1,
            resource,
            size,
            state,
        ) matches Some(Ok(text)) && encode_utf8(text) == state.contents),
{
    lemma_read_from_start(state.contents, size);
    assert forall|cursor: nat|
        delivery(KeymapFormat::XkbV1, resource, size, state) == #[trigger] delivery(
            KeymapFormat::XkbV1,
            resource,
            size,
            ResourceState { contents: state.contents, cursor },
        ) by {
        let moved = ResourceState { contents: state.contents, cursor };
        assert(moved.seek(0) == state.seek(0));
    }
    if valid_utf8(state.contents) {
        decode_utf8_encode_utf8(state.contents);
    }
}

/// A keymap of any other format delivers nothing, and its resource is
/// released without having been read.
pub proof fn law_other_keymap_is_released_unread(
    format: KeymapFormat,
    resource: Descriptor,
    size: u32,
    state: ResourceState,
)
    requires
        !format.spec_is_text(),
    ensures
        retrieval(format, resource, size) == (Retrieval::Release { resource }),
        bytes_read(retrieval(format, resource, size), state) is None,
        delivery(format, resource, size, state) is None,
{
}

/// Reading up to `limit` bytes from the first byte yields the bounded
/// contents, and bounding those again changes nothing.
proof fn lemma_read_from_start(contents: Seq<u8>, limit: u32)
    ensures
        (ResourceState { contents, cursor: 0 }).read(limit as nat) == bounded(contents, limit),
        bounded(bounded(contents, limit), limit) == bounded(contents, limit),
{
    let state = ResourceState { contents, cursor: 0 };
    if contents.len() == 0 {
        assert(state.read(limit as nat) =~= contents);
    } else if limit >= contents.len() {
        assert(contents.skip(0) =~= contents);
        assert(bounded(contents, limit) =~= contents);
    } else {
        assert(contents.subrange(0, limit as int) =~= contents.take(limit as int));
    }
}

} // verus!
