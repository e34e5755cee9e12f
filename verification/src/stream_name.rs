//! The 16-byte stream identifier of a VBAN header: an ASCII name of at most
//! 16 characters, right-padded with zero bytes on the wire.

use vstd::prelude::*;

verus! {

/// Why a stream-name construction was refused.
#[derive(Clone, Copy, Debug, PartialEq, Eq, Structural)]
pub enum NameError {
    /// The input holds a character outside ASCII.
    NotAscii,
    /// The input is longer than 16 characters.
    TooLong,
}

/// A validated stream identifier, always exactly 16 bytes.
pub struct StreamName {
    bytes: Vec<u8>,
}

impl View for StreamName {
    type V = Seq<u8>;

    closed spec fn view(&self) -> Seq<u8> {
        self.bytes@
    }
}

/// The number of bytes shown when a name is displayed: everything before the
/// first zero byte, or all of them if none is zero.
pub open spec fn spec_visible_len(s: Seq<u8>) -> int
    decreases s.len(),
{
    if s.len() == 0 {
        0
    } else if s[0] == 0 {
        0
    } else {
        1 + spec_visible_len(s.drop_first())
    }
}

/// The characters a name displays as: its bytes before the first zero,
/// each read as one ASCII character.
pub open spec fn spec_display(s: Seq<u8>) -> Seq<char> {
    Seq::new(spec_visible_len(s) as nat, |i: int| s[i] as char)
}

/// `spec_visible_len(s)` is the index of the first zero byte of `s`, or
/// `s.len()` if no byte is zero.
pub proof fn lemma_visible_len_at_first_zero(s: Seq<u8>, i: int)
    requires
        0 <= i <= s.len(),
        forall|j: int| 0 <= j < i ==> s[j] != 0,
        i == s.len() || s[i] == 0,
    ensures
        spec_visible_len(s) == i,
    decreases i,
{
    if i == 0 {
    } else {
        lemma_visible_len_at_first_zero(s.drop_first(), i - 1);
    }
}

/// Relies on std's String::push: appends the given character to the string.
#[verifier::external_body]
fn string_push(s: &mut String, c: char)
    ensures
        final(s)@ == old(s)@.push(c),
{
    s.push(c)
}

impl StreamName {
    /// A name carries exactly the 16 bytes that go on the wire.
    pub open spec fn wf(&self) -> bool {
        self@.len() == 16
    }

    /// The wire form of a raw name: its bytes padded with zeros to 16.
    pub open spec fn spec_padded(name: Seq<u8>) -> Seq<u8>
        recommends
            name.len() <= 16,
    {
        name + Seq::new((16 - name.len()) as nat, |i: int| 0u8)
    }

    /// Builds a name from an ASCII string of at most 16 characters; any
    /// other input is refused, never silently truncated or corrected.
    pub fn try_from(name: &str) -> (r: Result<StreamName, NameError>)
        ensures
            match r {
                Ok(sn) => vstd::string::is_ascii(name) && name@.len() <= 16 && sn.wf() && sn@
                    == Self::spec_padded(name@.map(|i: int, c: char| c as u8)),
                Err(e) => match e {
                    NameError::NotAscii => !vstd::string::is_ascii(name),
                    NameError::TooLong => vstd::string::is_ascii(name) && name@.len() > 16,
                },
            },
    {
        broadcast use vstd::string::is_ascii_spec_bytes;

        if !name.is_ascii() {
            return Err(NameError::NotAscii);
        }
        let b: &[u8] = name.as_bytes();
        if b.len() > 16 {
            return Err(NameError::TooLong);
        }
        let mut bytes: Vec<u8> = Vec::new();
        let mut i: usize = 0;
        while i < b.len()
            invariant
                0 <= i <= b@.len(),
                bytes@ =~= b@.take(i as int),
            decreases b@.len() - i,
        {
            bytes.push(b[i]);
            i += 1;
        }
        assert(bytes@ =~= b@);
        while bytes.len() < 16
            invariant
                b@.len() <= bytes@.len() <= 16,
                bytes@ =~= b@ + Seq::new((bytes@.len() - b@.len()) as nat, |i: int| 0u8),
            decreases 16 - bytes@.len(),
        {
            bytes.push(0);
        }
        let sn = StreamName { bytes };
        proof {
            assert(sn@ =~= Self::spec_padded(b@));
            assert(b@ =~= name@.map(|i: int, c: char| c as u8));
        }
        Ok(sn)
    }

    /// Rebuilds a name from the 16 wire bytes of a decoded header.
    pub fn from_wire(bytes: &[u8]) -> (sn: StreamName)
        requires
            bytes@.len() == 16,
        ensures
            sn.wf(),
            sn@ == bytes@,
    {
        let mut v: Vec<u8> = Vec::new();
        let mut i: usize = 0;
        while i < bytes.len()
            invariant
                0 <= i <= bytes@.len(),
                v@ =~= bytes@.take(i as int),
            decreases bytes@.len() - i,
        {
            v.push(bytes[i]);
            i += 1;
        }
        assert(v@ =~= bytes@);
        StreamName { bytes: v }
    }

    /// The 16 bytes as they stand in an encoded header.
    pub fn wire_bytes(&self) -> (b: &Vec<u8>)
        ensures
            b@ == self@,
    {
        &self.bytes
    }

    /// The readable form of the name: its bytes before the first zero byte.
    pub fn display_string(&self) -> (s: String)
        ensures
            s@ == spec_display(self@),
    {
        let mut s = String::new();
        let mut i: usize = 0;
        while i < self.bytes.len()
            invariant
                0 <= i <= self@.len(),
                forall|j: int| 0 <= j < i ==> self@[j] != 0,
                s@ =~= Seq::new(i as nat, |j: int| self@[j] as char),
            decreases self@.len() - i,
        {
            let c = self.bytes[i];
            if c == 0 {
                proof {
                    lemma_visible_len_at_first_zero(self@, i as int);
                }
                assert(s@ =~= spec_display(self@));
                return s;
            }
            string_push(&mut s, c as char);
            i += 1;
        }
        proof {
            lemma_visible_len_at_first_zero(self@, self@.len() as int);
        }
        assert(s@ =~= spec_display(self@));
        s
    }

    /// Copies a name; the copy carries the same 16 bytes.
    pub fn duplicate(&self) -> (r: StreamName)
        ensures
            r@ == self@,
    {
        let mut v: Vec<u8> = Vec::new();
        let mut i: usize = 0;
        while i < self.bytes.len()
            invariant
                0 <= i <= self@.len(),
                v@ =~= self@.take(i as int),
            decreases self@.len() - i,
        {
            v.push(self.bytes[i]);
            i += 1;
        }
        assert(v@ =~= self@);
        StreamName { bytes: v }
    }
}

impl PartialEq for StreamName {
    /// Names are equal exactly when all 16 wire bytes are equal.
    fn eq(&self, other: &Self) -> (r: bool) {
        if self.bytes.len() != other.bytes.len() {
            assert(self@ != other@);
            return false;
        }
        let mut i: usize = 0;
        while i < self.bytes.len()
            invariant
                0 <= i <= self@.len(),
                self@.len() == other@.len(),
                forall|j: int| 0 <= j < i ==> self@[j] == other@[j],
            decreases self@.len() - i,
        {
            if self.bytes[i] != other.bytes[i] {
                assert(self@ != other@);
                return false;
            }
            i += 1;
        }
        proof {
            assert(self@ =~= other@);
        }
        true
    }
}

impl Eq for StreamName {

}

impl vstd::std_specs::cmp::PartialEqSpecImpl for StreamName {
    open spec fn obeys_eq_spec() -> bool {
        true
    }

    open spec fn eq_spec(&self, other: &Self) -> bool {
        self@ == other@
    }
}

} // verus!
