use vstd::prelude::*;
use crate::var_buf::{var_buf_ok, VarBuf};
use crate::win32::{hresult_from_win32, hresult_of_win32};

verus! {

/// The alignment that the buffer a security identifier is handed to the
/// system in is to have.
pub const SID_ALIGNMENT: usize = 4;

/// The Win32 error code of text that has no Unicode form.
pub const ERROR_NO_UNICODE_TRANSLATION: u32 = 1113;

/// The revision of the security identifier structure.
pub const SID_REVISION: u8 = 1;

/// The most sub-authorities a security identifier has.
pub const SID_MAX_SUB_AUTHORITIES: u8 = 15;

/// The length in bytes of a security identifier whose first two bytes
/// (revision and sub-authority count) are those of `header`, or nothing
/// where they are not those of a valid identifier: the revision must be 1
/// and there can be at most 15 sub-authorities. The length is the 8 bytes of
/// revision, count and identifier authority, and 4 bytes per sub-authority.
pub open spec fn sid_length_of(header: Seq<u8>) -> Option<nat> {
    if header.len() >= 2 && header[0] == SID_REVISION && header[1] <= SID_MAX_SUB_AUTHORITIES {
        Some(8 + 4 * header[1] as nat)
    } else {
        None
    }
}

/// The bytes of a valid security identifier: a valid header, and exactly as
/// many bytes as it declares.
pub open spec fn sid_valid(bytes: Seq<u8>) -> bool {
    sid_length_of(bytes) == Some(bytes.len())
}

/// The length in bytes of the security identifier that starts with `header`
/// (of which only the first two bytes are read), or nothing where the
/// header is not that of a valid identifier.
pub fn sid_length(header: &[u8]) -> (r: Option<usize>)
    ensures
        match r {
            Some(n) => sid_length_of(header@) == Some(n as nat),
            None => sid_length_of(header@) is None,
        },
        r is Some <==> (header@.len() >= 2 && header@[0] == 1 && header@[1] <= 15),
        r matches Some(n) ==> n == 8 + 4 * header@[1],
{
    if header.len() >= 2 && header[0] == SID_REVISION && header[1] <= SID_MAX_SUB_AUTHORITIES {
        Some(8 + 4 * (header[1] as usize))
    } else {
        None
    }
}

/// A header declares a valid identifier exactly when its revision is 1 and
/// it has at most 15 sub-authorities, and the identifier is then 8 bytes plus
/// 4 for each sub-authority; the bytes are a valid identifier exactly when
/// their header is valid and they are as long as it declares.
pub proof fn lemma_sid_rules(bytes: Seq<u8>)
    ensures
        (sid_length_of(bytes) is Some) <==> (bytes.len() >= 2 && bytes[0] == 1 && bytes[1] <= 15),
        sid_length_of(bytes) matches Some(n) ==> n == 8 + 4 * bytes[1],
        bytes.len() >= 2 && bytes[0] == 1 && bytes[1] <= 15 ==> sid_length_of(bytes) == Some(
            8 + 4 * bytes[1] as nat,
        ),
        sid_valid(bytes) <==> {
            &&& bytes.len() >= 2
            &&& bytes[0] == 1
            &&& bytes[1] <= 15
            &&& bytes.len() == 8 + 4 * bytes[1]
        },
{
}

/// The bytes of a security identifier, together with the checked layout
/// (four-byte alignment) of the buffer they are to be handed to the system
/// in.
///
/// The bytes are kept in a `Vec`, aligned only as `u8` is; the alignment is
/// a record for the allocation that is handed to the system, made
/// elsewhere.
pub struct Sid(VarBuf<u8>);

impl View for Sid {
    type V = Seq<u8>;

    closed spec fn view(&self) -> Seq<u8> {
        self.0@
    }
}

impl Sid {
    /// The alignment that the identifier's buffer is to have (a checked
    /// figure, not the alignment of the bytes kept here).
    pub closed spec fn layout_align(self) -> usize {
        self.0.layout_align()
    }

    /// Copies the bytes of a valid security identifier, `source` being
    /// exactly the identifier.
    pub fn copy_raw(source: &[u8]) -> (s: Sid)
        requires
            sid_valid(source@),
        ensures
            s@ == source@,
            s.layout_align() == SID_ALIGNMENT,
    {
        vstd::layout::layout_for_type_is_valid::<u8>();
        proof {
            assert(var_buf_ok::<u8>(source@.len() as usize, SID_ALIGNMENT)) by {
                broadcast use vstd::layout::layout_of_primitives;
                assert(vstd::layout::align_of::<u8>() == 1) by (nonlinear_arith)
                    requires
                        vstd::layout::size_of::<u8>() == 1,
                        vstd::layout::align_of::<u8>() != 0,
                        vstd::layout::size_of::<u8>() % vstd::layout::align_of::<u8>() == 0,
                ;
                assert(vstd::arithmetic::power2::is_pow2(4)) by {
                    reveal(vstd::arithmetic::power2::is_pow2);
                    assert(vstd::arithmetic::power2::is_pow2(1));
                    assert(vstd::arithmetic::power2::is_pow2(2));
                }
            }
        }
        let buffer = VarBuf::<u8>::from_aligned_raw(source.len(), SID_ALIGNMENT, source);
        proof {
            assert(source@.subrange(0, source@.len() as int) =~= source@);
        }
        Sid(buffer)
    }

    /// The bytes of the identifier.
    pub fn as_bytes(&self) -> (r: &[u8])
        ensures
            r@ == self@,
    {
        self.0.as_ptr()
    }
}

/// Every identifier that `copy_raw` accepts is as long as its header says,
/// so that its length can be read from its first two bytes before any more
/// of it is read.
pub proof fn lemma_valid_sid_length(bytes: Seq<u8>)
    requires
        sid_valid(bytes),
    ensures
        sid_length_of(bytes.take(2)) == Some(bytes.len()),
        8 <= bytes.len() <= 68,
{
}

/// How many UTF-16 units come before the first NUL unit (all of them if
/// there is none).
pub open spec fn wide_len(s: Seq<u16>) -> nat
    decreases s.len(),
{
    if s.len() == 0 || s[0] == 0 {
        0
    } else {
        1 + wide_len(s.drop_first())
    }
}

/// The UTF-16 text that a NUL-terminated wide string holds.
pub open spec fn wide_text(s: Seq<u16>) -> Seq<u16> {
    s.take(wide_len(s) as int)
}

/// A leading surrogate: the first unit of a pair.
pub open spec fn is_high_surrogate(u: u16) -> bool {
    0xD800 <= u <= 0xDBFF
}

/// A trailing surrogate: the second unit of a pair.
pub open spec fn is_low_surrogate(u: u16) -> bool {
    0xDC00 <= u <= 0xDFFF
}

/// The text that UTF-16 units encode, or nothing where they are not valid
/// UTF-16: a unit outside the surrogate range stands for itself, a leading
/// surrogate followed by a trailing one stands for
/// `0x10000 + (high - 0xD800) * 0x400 + (low - 0xDC00)`, and any other
/// surrogate makes the whole invalid.
pub open spec fn utf16_text(units: Seq<u16>) -> Option<Seq<char>>
    decreases units.len(),
{
    if units.len() == 0 {
        Some(Seq::empty())
    } else if !is_high_surrogate(units[0]) && !is_low_surrogate(units[0]) {
        match utf16_text(units.drop_first()) {
            Some(rest) => Some(seq![units[0] as char] + rest),
            None => None,
        }
    } else if is_high_surrogate(units[0]) && units.len() >= 2 && is_low_surrogate(units[1]) {
        let c: int = 0x10000 + (units[0] - 0xD800) * 0x400 + (units[1] - 0xDC00);
        match utf16_text(units.subrange(2, units.len() as int)) {
            Some(rest) => Some(seq![c as char] + rest),
            None => None,
        }
    } else {
        None
    }
}

/// Text with no surrogate units decodes unit by unit into the same code
/// points; text that starts with a trailing surrogate, or ends in a leading
/// one, is not valid UTF-16; and a leading surrogate followed by a trailing
/// one starts with the code point they pair into.
pub proof fn lemma_utf16_text(units: Seq<u16>)
    ensures
        (forall|j: int| 0 <= j < units.len() ==> !is_high_surrogate(#[trigger] units[j])
            && !is_low_surrogate(units[j])) ==> utf16_text(units) == Some(
            Seq::new(units.len(), |j: int| units[j] as char),
        ),
        units.len() >= 1 && 0xDC00 <= units[0] <= 0xDFFF ==> utf16_text(units) is None,
        units.len() == 1 && 0xD800 <= units[0] <= 0xDBFF ==> utf16_text(units) is None,
        units.len() >= 2 && 0xD800 <= units[0] <= 0xDBFF && 0xDC00 <= units[1] <= 0xDFFF
            ==> (utf16_text(units) matches Some(text) && text.len() >= 1 && text[0] == ((0x10000
            + (units[0] - 0xD800) * 0x400 + (units[1] - 0xDC00)) as char)) || utf16_text(units) is None,
    decreases units.len(),
{
    if units.len() > 0 {
        let rest = units.drop_first();
        lemma_utf16_text(rest);
        if (forall|j: int| 0 <= j < units.len() ==> !is_high_surrogate(#[trigger] units[j])
            && !is_low_surrogate(units[j])) {
            assert forall|j: int| 0 <= j < rest.len() implies !is_high_surrogate(#[trigger] rest[j])
                && !is_low_surrogate(rest[j]) by {
                assert(rest[j] == units[j + 1]);
            }
            assert(utf16_text(units) == Some(
                seq![units[0] as char] + Seq::new(rest.len(), |j: int| rest[j] as char),
            ));
            assert(seq![units[0] as char] + Seq::new(rest.len(), |j: int| rest[j] as char)
                =~= Seq::new(units.len(), |j: int| units[j] as char));
        }
        if units.len() >= 2 && 0xD800 <= units[0] <= 0xDBFF && 0xDC00 <= units[1] <= 0xDFFF {
            lemma_utf16_text(units.subrange(2, units.len() as int));
        }
    }
}

/// `String::from_utf16` of std, its error dropped: the text that the units
/// encode as UTF-16, or nothing where they are not valid UTF-16, as its
/// documentation says ("Decode a UTF-16-encoded vector into a String,
/// returning Err if it contains any invalid data").
#[verifier::external_body]
fn decode_utf16(units: &[u16]) -> (r: Option<String>)
    ensures
        r is Some <==> utf16_text(units@) is Some,
        r matches Some(text) ==> utf16_text(units@) == Some(text@),
{
    String::from_utf16(units).ok()
}

/// The text of a wide string is the units before its first NUL: a prefix of
/// the string with no NUL in it, followed by a NUL or by the end.
pub proof fn lemma_wide_text(s: Seq<u16>)
    ensures
        wide_text(s) == s.take(wide_text(s).len() as int),
        wide_text(s).len() <= s.len(),
        forall|j: int| 0 <= j < wide_text(s).len() ==> s[j] != 0,
        wide_text(s).len() == s.len() || s[wide_text(s).len() as int] == 0,
    decreases s.len(),
{
    lemma_wide_len_bounds(s);
}

proof fn lemma_wide_len_bounds(s: Seq<u16>)
    ensures
        wide_len(s) <= s.len(),
        forall|j: int| 0 <= j < wide_len(s) ==> s[j] != 0,
        wide_len(s) == s.len() || s[wide_len(s) as int] == 0,
    decreases s.len(),
{
    if s.len() > 0 && s[0] != 0 {
        let t = s.drop_first();
        lemma_wide_len_bounds(t);
        assert forall|j: int| 0 <= j < wide_len(s) implies s[j] != 0 by {
            if j > 0 {
                assert(s[j] == t[j - 1]);
            }
        }
        if wide_len(t) < t.len() {
            assert(s[wide_len(s) as int] == t[wide_len(t) as int]);
        }
    }
}

proof fn lemma_wide_len(s: Seq<u16>, k: int)
    requires
        0 <= k <= s.len(),
        forall|j: int| 0 <= j < k ==> s[j] != 0,
        k == s.len() || s[k] == 0,
    ensures
        wide_len(s) == k,
    decreases k,
{
    if k > 0 {
        lemma_wide_len(s.drop_first(), k - 1);
    }
}

/// The text of a NUL-terminated wide string, as the `to_string` of a wide
/// string pointer reads it: the units up to the first NUL, decoded from
/// UTF-16, or nothing where they are not valid UTF-16.
pub fn decode_wide(units: &[u16]) -> (r: Option<String>)
    ensures
        r is Some <==> utf16_text(wide_text(units@)) is Some,
        r matches Some(text) ==> utf16_text(wide_text(units@)) == Some(text@),
        wide_text(units@) == units@.take(wide_text(units@).len() as int),
        forall|j: int| 0 <= j < wide_text(units@).len() ==> units@[j] != 0,
        wide_text(units@).len() == units@.len() || units@[wide_text(units@).len() as int] == 0,
{
    proof {
        lemma_wide_text(units@);
    }
    let mut k: usize = 0;
    while k < units.len() && units[k] != 0
        invariant
            k <= units@.len(),
            forall|j: int| 0 <= j < k ==> units@[j] != 0,
        decreases units@.len() - k,
    {
        k = k + 1;
    }
    proof {
        lemma_wide_len(units@, k as int);
    }
    let text: &[u16] = slice_prefix(units, k);
    decode_utf16(text)
}

/// The first `k` items of `s`.
fn slice_prefix(s: &[u16], k: usize) -> (r: &[u16])
    requires
        k <= s@.len(),
    ensures
        r@ == s@.take(k as int),
{
    let (head, _) = s.split_at(k);
    head
}

/// Where a lookup of the account that a security identifier names stands.
#[derive(Clone, Copy, Debug, PartialEq, Eq, Structural)]
pub enum LookupStage {
    /// The lengths of the account and domain names are being asked for.
    AwaitingSizes,
    /// The names are being fetched into buffers of these lengths, in UTF-16
    /// units.
    AwaitingNames { name_len: usize, domain_len: usize },
}

/// What a call of `LookupAccountSidW` reported.
pub struct LookupReply {
    /// Whether the call failed.
    pub failed: bool,
    /// The length of the account name that the call reported, in UTF-16
    /// units.
    pub name_len: u32,
    /// The length of the domain name that the call reported, in UTF-16
    /// units.
    pub domain_len: u32,
    /// The account name buffer after the call (empty when none was given).
    pub name: Vec<u16>,
}

/// What the caller of a lookup is to do next.
pub enum LookupAction {
    /// Make zeroed buffers of these lengths (in UTF-16 units) and call
    /// again with them.
    Fetch { name_len: usize, domain_len: usize },
    /// The length query succeeded where it can only fail: the lookup is
    /// abandoned.
    Abandon,
    /// The fetching call failed: its error is the lookup's.
    CallFailed,
    /// The account name is not valid UTF-16: the lookup fails with this
    /// `HRESULT`.
    Undecodable { code: i32 },
    /// The lookup gives this account name.
    Deliver { name: String },
}

/// One step of the lookup of an account name: the first call asks for the
/// lengths of the names and must fail; the second fills buffers of those
/// lengths, and the account name is the UTF-16 text before the first NUL
/// of its buffer. Gives the next stage, if the lookup goes on, and what to
/// do.
pub fn lookup_step(stage: LookupStage, reply: &LookupReply) -> (r: (Option<LookupStage>, LookupAction))
    ensures
        match stage {
            LookupStage::AwaitingSizes => if reply.failed {
                &&& r.0 == Some(
                    LookupStage::AwaitingNames {
                        name_len: reply.name_len as usize,
                        domain_len: reply.domain_len as usize,
                    },
                )
                &&& r.1 == (LookupAction::Fetch {
                    name_len: reply.name_len as usize,
                    domain_len: reply.domain_len as usize,
                })
            } else {
                r.0 is None && r.1 is Abandon
            },
            LookupStage::AwaitingNames { .. } => {
                &&& r.0 is None
                &&& reply.failed ==> r.1 is CallFailed
                &&& !reply.failed ==> match utf16_text(wide_text(reply.name@)) {
                    Some(text) => r.1 matches LookupAction::Deliver { name } && name@ == text,
                    None => r.1 == (LookupAction::Undecodable {
                        code: hresult_from_win32(ERROR_NO_UNICODE_TRANSLATION) as i32,
                    }),
                }
            },
        },
{
    match stage {
        LookupStage::AwaitingSizes => {
            if reply.failed {
                let name_len: usize = reply.name_len as usize;
                let domain_len: usize = reply.domain_len as usize;
                (
                    Some(LookupStage::AwaitingNames { name_len, domain_len }),
                    LookupAction::Fetch { name_len, domain_len },
                )
            } else {
                (None, LookupAction::Abandon)
            }
        },
        LookupStage::AwaitingNames { .. } => {
            if reply.failed {
                (None, LookupAction::CallFailed)
            } else {
                match decode_wide(reply.name.as_slice()) {
                    Some(name) => (None, LookupAction::Deliver { name }),
                    None => (
                        None,
                        LookupAction::Undecodable {
                            code: hresult_of_win32(ERROR_NO_UNICODE_TRANSLATION),
                        },
                    ),
                }
            }
        },
    }
}

} // verus!
