use vstd::prelude::*;

use crate::inline::InlineBuffer;
use crate::manager::{inserted, StringID, StringManager};
use crate::MAX_SIZE;
use vstd::utf8::{decode_utf8, decode_utf8_encode_utf8, encode_utf8, encode_utf8_decode_utf8};

verus! {

/// Which of the four same-sized layouts a string value currently holds.
#[derive(Clone, Copy, Debug, PartialEq, Eq, Hash, Structural)]
pub enum SmartStringKind {
    /// Content bytes stored in the value itself.
    Inlined,
    /// A borrow of content with process lifetime.
    Static,
    /// A key into the interning manager.
    Managed,
    /// An exclusively owned heap allocation.
    Heap,
}

/// The four layouts behind a string value. Every variant fits the stack
/// footprint of an owned `String`: the three record variants leave the final
/// byte's position free, and the compiler tags them with byte values the
/// inline buffer's final byte never takes.
#[derive(Clone, Debug)]
pub enum Repr {
    Inlined(InlineBuffer),
    Static(&'static str),
    Managed { key: StringID, length: usize },
    Heap(Box<String>),
}

/// A string value in the same stack footprint as an owned `String`: short
/// content lives in place, long content behind a static borrow, an interned
/// key, or an owned heap allocation. The discriminant is examined before any
/// field.
#[derive(Clone, Debug)]
pub struct SmartString {
    pub repr: Repr,
}

impl SmartString {
    /// Which layout the value holds.
    pub open spec fn spec_kind(self) -> SmartStringKind {
        match self.repr {
            Repr::Inlined(_) => SmartStringKind::Inlined,
            Repr::Static(_) => SmartStringKind::Static,
            Repr::Managed { .. } => SmartStringKind::Managed,
            Repr::Heap(_) => SmartStringKind::Heap,
        }
    }

    /// Byte length of the content; the value describes it on its own, with no
    /// manager involved.
    pub open spec fn spec_len(self) -> nat {
        match self.repr {
            Repr::Inlined(buffer) => buffer.spec_len(),
            Repr::Static(text) => encode_utf8(text@).len(),
            Repr::Managed { length, .. } => length as nat,
            Repr::Heap(text) => encode_utf8(text@).len(),
        }
    }

    /// The value is well formed on its own: an inline buffer holds encoded
    /// text.
    pub open spec fn wf(self) -> bool {
        match self.repr {
            Repr::Inlined(buffer) => buffer.wf(),
            _ => true,
        }
    }

    /// The value is well formed against `manager`: a managed value's key is
    /// interned there and the stored length is its body's byte length.
    pub open spec fn wf_in(self, manager: StringManager) -> bool {
        &&& self.wf()
        &&& match self.repr {
            Repr::Managed { key, length } => manager.contents().dom().contains(key)
                && encode_utf8(manager.contents()[key]).len() == length,
            _ => true,
        }
    }

    /// The text the value stands for, read against `manager`; a managed value
    /// whose key was never handed out there has none.
    pub open spec fn text_of(self, manager: StringManager) -> Option<Seq<char>> {
        match self.repr {
            Repr::Inlined(buffer) => Some(decode_utf8(buffer.spec_bytes())),
            Repr::Static(text) => Some(text@),
            Repr::Managed { key, .. } => if manager.contents().dom().contains(key) {
                Some(manager.contents()[key])
            } else {
                None
            },
            Repr::Heap(text) => Some(text@),
        }
    }

    /// Encodes text of at most the inline capacity in place; longer text is a
    /// precondition violation, never a truncation.
    pub fn inlined(s: &str) -> (value: SmartString)
        requires
            encode_utf8(s@).len() <= MAX_SIZE,
        ensures
            value.wf(),
            value.spec_kind() == SmartStringKind::Inlined,
            value.spec_len() == encode_utf8(s@).len(),
            forall|m: StringManager| value.text_of(m) == Some(s@),
    {
        let buffer = InlineBuffer::new_const(s);
        proof {
            encode_utf8_decode_utf8(s@);
        }
        SmartString { repr: Repr::Inlined(buffer) }
    }

    /// Encodes the text in place when it fits, and reports when it does not.
    pub fn try_inline(s: &str) -> (value: Option<SmartString>)
        ensures
            value is Some <==> encode_utf8(s@).len() <= MAX_SIZE,
            value matches Some(v) ==> v.wf() && v.spec_kind() == SmartStringKind::Inlined
                && v.spec_len() == encode_utf8(s@).len() && forall|m: StringManager|
                v.text_of(m) == Some(s@),
    {
        if s.as_bytes().len() <= MAX_SIZE {
            Some(Self::inlined(s))
        } else {
            None
        }
    }

    /// Interns an owned body with the manager and keeps only the returned key
    /// and the body's byte length.
    pub fn try_managed(string: String, manager: &mut StringManager) -> (value: SmartString)
        requires
            old(manager).wf(),
        ensures
            value.spec_kind() == SmartStringKind::Managed,
            value.wf_in(*final(manager)),
            value.spec_len() == encode_utf8(string@).len(),
            value.text_of(*final(manager)) == Some(string@),
            value.repr matches Repr::Managed { key, .. } && inserted(
                *old(manager),
                *final(manager),
                string@,
                key,
            ),
    {
        let length = string.as_str().as_bytes().len();
        let key = manager.insert(string);
        SmartString { repr: Repr::Managed { key, length } }
    }

    /// Interns the text with the manager and returns the managed value for
    /// it.
    pub fn managed(s: &str, manager: &mut StringManager) -> (value: SmartString)
        requires
            old(manager).wf(),
        ensures
            value.spec_kind() == SmartStringKind::Managed,
            value.wf_in(*final(manager)),
            value.spec_len() == encode_utf8(s@).len(),
            value.text_of(*final(manager)) == Some(s@),
            value.repr matches Repr::Managed { key, .. } && inserted(
                *old(manager),
                *final(manager),
                s@,
                key,
            ),
    {
        Self::try_managed(s.to_owned(), manager)
    }

    /// Borrows content whose storage outlives every copy of the value.
    pub fn static_str(s: &'static str) -> (value: SmartString)
        ensures
            value.repr == Repr::Static(s),
            value.wf(),
            value.spec_kind() == SmartStringKind::Static,
            value.spec_len() == encode_utf8(s@).len(),
            forall|m: StringManager| value.text_of(m) == Some(s@),
    {
        SmartString { repr: Repr::Static(s) }
    }

    /// Copies the text into an exclusively owned heap allocation; the value
    /// moves rather than copies, so the allocation is released exactly once.
    pub fn heap(s: &str) -> (value: SmartString)
        ensures
            value.wf(),
            value.spec_kind() == SmartStringKind::Heap,
            value.spec_len() == encode_utf8(s@).len(),
            forall|m: StringManager| value.text_of(m) == Some(s@),
    {
        SmartString { repr: Repr::Heap(Box::new(s.to_owned())) }
    }

    /// Builds the cheapest value for the text: content up to the inline
    /// capacity is encoded in place, anything longer is interned.
    pub fn new(s: &str, manager: &mut StringManager) -> (value: SmartString)
        requires
            old(manager).wf(),
        ensures
            final(manager).wf(),
            value.wf_in(*final(manager)),
            value.spec_len() == encode_utf8(s@).len(),
            value.text_of(*final(manager)) == Some(s@),
            encode_utf8(s@).len() <= MAX_SIZE ==> value.spec_kind() == SmartStringKind::Inlined
                && *final(manager) == *old(manager),
            encode_utf8(s@).len() > MAX_SIZE ==> value.spec_kind() == SmartStringKind::Managed
                && (value.repr matches Repr::Managed { key, .. } && inserted(
                *old(manager),
                *final(manager),
                s@,
                key,
            )),
    {
        if s.as_bytes().len() <= MAX_SIZE {
            Self::inlined(s)
        } else {
            Self::try_managed(s.to_owned(), manager)
        }
    }

    /// The discriminant; pure and total, read before any field.
    pub fn kind(&self) -> (kind: SmartStringKind)
        ensures
            kind == self.spec_kind(),
    {
        match &self.repr {
            Repr::Inlined(_) => SmartStringKind::Inlined,
            Repr::Static(_) => SmartStringKind::Static,
            Repr::Managed { .. } => SmartStringKind::Managed,
            Repr::Heap(_) => SmartStringKind::Heap,
        }
    }

    /// Byte length of the content, read from the value alone: the packed
    /// final byte for inline content, the stored length word otherwise; no
    /// manager lookup for any layout.
    pub fn len(&self) -> (length: usize)
        ensures
            length == self.spec_len(),
    {
        match &self.repr {
            Repr::Inlined(buffer) => buffer.get_len(),
            Repr::Static(text) => text.as_bytes().len(),
            Repr::Managed { length, .. } => *length,
            Repr::Heap(text) => text.as_str().as_bytes().len(),
        }
    }

    /// Reads the text: in place for inline content, through the stored borrow
    /// or owned allocation otherwise, and by a manager lookup for a managed
    /// value — the one layout whose text can be absent.
    pub fn as_str(&self, manager: &StringManager) -> (text: Option<String>)
        requires
            self.wf(),
        ensures
            match self.text_of(*manager) {
                Some(t) => text matches Some(out) && out@ == t,
                None => text is None,
            },
    {
        match &self.repr {
            Repr::Inlined(buffer) => Some(buffer.as_str()),
            Repr::Static(text) => Some((*text).to_owned()),
            Repr::Managed { key, .. } => manager.get(*key),
            Repr::Heap(text) => Some(text.as_str().to_owned()),
        }
    }

    /// The borrowed static content, for the static layout alone.
    pub fn as_static(&self) -> (text: Option<&'static str>)
        ensures
            match self.repr {
                Repr::Static(s) => text == Some(s),
                _ => text is None,
            },
    {
        match &self.repr {
            Repr::Static(s) => Some(*s),
            _ => None,
        }
    }

    /// A copy of the interned body, for a managed value whose key the manager
    /// still holds.
    pub fn as_managed(&self, manager: &StringManager) -> (text: Option<String>)
        ensures
            self.spec_kind() == SmartStringKind::Managed ==> match self.text_of(*manager) {
                Some(t) => text matches Some(out) && out@ == t,
                None => text is None,
            },
            self.spec_kind() != SmartStringKind::Managed ==> text is None,
    {
        match &self.repr {
            Repr::Managed { key, .. } => manager.get(*key),
            _ => None,
        }
    }
}

impl InlineBuffer {
    /// Wraps the buffer as a full string value with the inline layout.
    pub fn as_smart_string(&self) -> (value: SmartString)
        ensures
            value.repr == Repr::Inlined(*self),
    {
        SmartString { repr: Repr::Inlined(*self) }
    }
}

impl From<&'static str> for SmartString {
    /// The static layout for a borrow with process lifetime.
    fn from(s: &'static str) -> (value: SmartString)
        ensures
            value == (SmartString { repr: Repr::Static(s) }),
    {
        Self::static_str(s)
    }
}

impl vstd::std_specs::convert::FromSpecImpl<&'static str> for SmartString {
    open spec fn obeys_from_spec() -> bool {
        true
    }

    open spec fn from_spec(s: &'static str) -> Self {
        SmartString { repr: Repr::Static(s) }
    }
}

impl Default for SmartString {
    /// The empty inline value.
    fn default() -> (value: Self)
        ensures
            value.wf(),
            value.spec_kind() == SmartStringKind::Inlined,
            value.spec_len() == 0,
    {
        SmartString { repr: Repr::Inlined(InlineBuffer::empty()) }
    }
}

/// A live managed value never dangles: interning more bodies with the
/// manager keeps every earlier value well formed against it and leaves its
/// text unchanged, as the manager never drops an entry.
pub proof fn lemma_wf_in_preserved(
    value: SmartString,
    pre: StringManager,
    post: StringManager,
    body: Seq<char>,
    key: u64,
)
    requires
        pre.wf(),
        value.wf_in(pre),
        inserted(pre, post, body, key),
    ensures
        value.wf_in(post),
        value.text_of(post) == value.text_of(pre),
{
    match value.repr {
        Repr::Managed { key: k0, .. } => {
            crate::manager::lemma_contents_monotone(
                pre,
                post,
                body,
                key,
                k0,
                pre.contents()[k0],
            );
        },
        _ => {},
    }
}

/// Encoding a short text in place and reading the value back yields the text
/// unchanged, whatever manager it is read against.
pub proof fn lemma_inline_round_trip(t: Seq<char>, value: SmartString, manager: StringManager)
    requires
        value.repr matches Repr::Inlined(b) && b.spec_bytes() == encode_utf8(t),
    ensures
        value.text_of(manager) == Some(t),
{
    encode_utf8_decode_utf8(t);
}

/// Every value that is well formed against a manager self-describes its
/// length: it equals the byte length of the text it stands for, with no
/// manager lookup.
pub proof fn lemma_len_matches_text(value: SmartString, manager: StringManager)
    requires
        value.wf_in(manager),
    ensures
        value.text_of(manager) matches Some(t) && value.spec_len() == encode_utf8(t).len(),
{
    match value.repr {
        Repr::Inlined(buffer) => {
            crate::inline::lemma_buffer_len(buffer);
            decode_utf8_encode_utf8(buffer.spec_bytes());
        },
        Repr::Static(_) => {},
        Repr::Managed { .. } => {},
        Repr::Heap(_) => {},
    }
}

} // verus!
