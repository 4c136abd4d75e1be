//! Marshaling caller text into nul-terminated buffers for the foreign call.
//!
//! The engine reads every string through a `const char *`: the bytes must be
//! valid for the whole foreign call, carry exactly one nul, and carry it
//! last.  [`NativeText`] is one such buffer; [`TransientStrings`] is the
//! group of buffers scoped to one configuration-build-and-create sequence or
//! to one per-request invocation.  The group is released strictly after the
//! foreign call that references it has returned, never before.

use vstd::prelude::*;
use vstd::string::StringSliceAdditionalSpecFns;
use vstd::utf8::encode_utf8;

verus! {

/// No byte of `bytes` is nul.
pub open spec fn nul_free(bytes: Seq<u8>) -> bool {
    forall|i: int| 0 <= i < bytes.len() ==> bytes[i] != 0u8
}

/// A text can cross the boundary: its UTF-8 image holds no interior nul.
pub open spec fn text_ok(text: Seq<char>) -> bool {
    nul_free(encode_utf8(text))
}

/// The marshaled image of a text: its UTF-8 bytes with one terminating nul.
pub open spec fn marshaled(text: Seq<char>) -> Seq<u8> {
    encode_utf8(text).push(0u8)
}

/// Whether a text may cross the boundary.  The unverified shell asks this
/// before handing caller strings to the marshaling step, and fails the
/// request on the strings this layer refuses.
pub fn text_is_nul_free(s: &str) -> (ok: bool)
    ensures
        ok == text_ok(s@),
{
    let bytes: &[u8] = s.as_bytes();
    let mut i: usize = 0;
    while i < bytes.len()
        invariant
            0 <= i <= bytes.len(),
            bytes@ == s.spec_bytes(),
            forall|j: int| 0 <= j < i ==> bytes@[j] != 0u8,
        decreases bytes.len() - i,
    {
        if bytes[i] == 0u8 {
            return false;
        }
        i += 1;
    }
    true
}

/// One nul-terminated buffer.  Its view is the full byte image, terminator
/// included; well-formedness says the terminator is the only nul.
pub struct NativeText {
    bytes: Vec<u8>,
}

impl View for NativeText {
    type V = Seq<u8>;

    closed spec fn view(&self) -> Seq<u8> {
        self.bytes@
    }
}

impl NativeText {
    /// Exactly one nul, and it is the last byte.
    pub open spec fn wf(&self) -> bool {
        &&& self@.len() >= 1
        &&& self@.last() == 0u8
        &&& nul_free(self@.drop_last())
    }

    /// Marshal one text.
    pub fn from_text(s: &str) -> (t: NativeText)
        requires
            text_ok(s@),
        ensures
            t@ == marshaled(s@),
            t.wf(),
    {
        let src: &[u8] = s.as_bytes();
        let mut bytes: Vec<u8> = Vec::new();
        let mut i: usize = 0;
        while i < src.len()
            invariant
                0 <= i <= src.len(),
                src@ == s.spec_bytes(),
                bytes@ == src@.take(i as int),
            decreases src.len() - i,
        {
            bytes.push(src[i]);
            i += 1;
        }
        assert(bytes@ == encode_utf8(s@)) by {
            assert(bytes@ =~= src@);
        }
        bytes.push(0u8);
        let t = NativeText { bytes };
        assert(t@.drop_last() =~= encode_utf8(s@));
        t
    }

    /// The raw buffer the shell hands to the foreign call.
    pub fn as_bytes(&self) -> (b: &Vec<u8>)
        ensures
            b@ == self@,
    {
        &self.bytes
    }
}

/// An ephemeral group of marshaled strings scoped to exactly one foreign
/// call sequence.  Entries are added while the configuration (or request)
/// is assembled, stay untouched for the whole foreign call, and are released
/// together, strictly after that call has returned.
pub struct TransientStrings {
    items: Vec<NativeText>,
    released: bool,
}

impl TransientStrings {
    /// The marshaled images held, in the order they were added.
    pub closed spec fn entries(&self) -> Seq<Seq<u8>> {
        self.items@.map_values(|t: NativeText| t@)
    }

    /// Whether the group has been released.
    pub closed spec fn is_released(&self) -> bool {
        self.released
    }

    /// Every held buffer is well formed.
    pub closed spec fn wf(&self) -> bool {
        forall|i: int| 0 <= i < self.items@.len() ==> (#[trigger] self.items@[i]).wf()
    }

    /// An empty group, ready to take entries.
    pub fn new() -> (p: TransientStrings)
        ensures
            p.entries() == Seq::<Seq<u8>>::empty(),
            !p.is_released(),
            p.wf(),
    {
        let p = TransientStrings { items: Vec::new(), released: false };
        assert(p.entries() =~= Seq::<Seq<u8>>::empty());
        p
    }

    /// How many entries are held.
    pub fn len(&self) -> (n: usize)
        ensures
            n == self.entries().len(),
    {
        self.items.len()
    }

    /// Marshal one more text into the group.
    pub fn add(&mut self, s: &str) -> (idx: usize)
        requires
            !old(self).is_released(),
            old(self).wf(),
            text_ok(s@),
        ensures
            final(self).entries() == old(self).entries().push(marshaled(s@)),
            !final(self).is_released(),
            final(self).wf(),
            idx == old(self).entries().len(),
    {
        let idx = self.items.len();
        let t = NativeText::from_text(s);
        self.items.push(t);
        assert(self.entries() =~= old(self).entries().push(marshaled(s@)));
        idx
    }

    /// Borrow one held buffer, for the foreign call's argument list.
    pub fn entry(&self, idx: usize) -> (t: &NativeText)
        requires
            idx < self.entries().len(),
        ensures
            t@ == self.entries()[idx as int],
    {
        &self.items[idx]
    }

    /// Release every entry.  Must be called strictly after the foreign call
    /// that references the group has returned; afterwards nothing holds the
    /// buffers any more.
    pub fn release(&mut self)
        ensures
            final(self).is_released(),
            final(self).entries() == Seq::<Seq<u8>>::empty(),
            final(self).wf(),
    {
        self.items = Vec::new();
        self.released = true;
        assert(self.entries() =~= Seq::<Seq<u8>>::empty());
    }
}

} // verus!
