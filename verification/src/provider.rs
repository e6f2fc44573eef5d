//! Logic of the credential provider tile: the unlock request it sends, the
//! fields it shows, registry keys, and how it reacts to the service's answer.

use vstd::prelude::*;
use vstd::string::*;

use crate::ipc::{ProviderUnlockRequest, UnlockDecision, CRED_UI_USAGE_SCENARIO};
use crate::text;
use crate::text::{is_blank, push_char, push_decimal, push_str, string_of};
use crate::wide::{
    is_wide_end, utf16_encode, utf16_lossy_decode, wide_null, wide_ptr_to_vec, wide_vec_to_string,
};
use crate::wipe::zeroize_units;

verus! {

pub const OTPUAC_PROVIDER_CLSID: &'static str = "{B6B6F0C2-4CCB-487E-9B58-681099865B10}";

pub const OTPUAC_USAGE_SCENARIO: &'static str = CRED_UI_USAGE_SCENARIO;

pub const PROVIDER_NAME: &'static str = "OTPUAC Credential Provider";

pub const THREADING_MODEL_VALUE: &'static str = "Apartment";

pub const TITLE_PROMPT: &'static str = "Enter authenticator code for admin elevation";

pub const STATUS_ENTER_CODE: &'static str = "Enter the current authenticator code";

pub const STATUS_CODE_ACCEPTED: &'static str = "Code accepted";

pub const STATUS_PACK_FAILED: &'static str = "Could not pack the managed credential";

pub const FIELD_LABEL: u32 = 0;
pub const FIELD_TITLE: u32 = 1;
pub const FIELD_TOTP: u32 = 2;
pub const FIELD_SUBMIT: u32 = 3;
pub const FIELD_COUNT: u32 = 4;

/// `E_FAIL`.
pub const E_FAIL: i32 = -2147467259;

/// `CRED_PACK_PROTECTED_CREDENTIALS`.
pub const CRED_PACK_PROTECTED_CREDENTIALS: u32 = 0x1;

/// `CRED_PACK_WOW_BUFFER`.
pub const CRED_PACK_WOW_BUFFER: u32 = 0x2;

/// The unlock request the provider sends for a submitted code.
pub fn build_unlock_request(request_id: &str, totp_code: &str) -> (r: ProviderUnlockRequest)
    ensures
        r.request_id@ == request_id@,
        r.usage_scenario@ == OTPUAC_USAGE_SCENARIO@,
        r.totp_code@ == totp_code@,
{
    ProviderUnlockRequest {
        request_id: string_of(request_id),
        usage_scenario: string_of(OTPUAC_USAGE_SCENARIO),
        totp_code: string_of(totp_code),
    }
}

/// The request identifier the provider uses at `millis` milliseconds after
/// the Unix epoch: `provider-<millis>`.
pub fn provider_request_id(millis: u64) -> (r: String)
    ensures
        r@ == "provider-"@ + text::decimal(millis as nat),
{
    let mut r = string_of("provider-");
    push_decimal(&mut r, millis);
    r
}

/// `DOMAIN\user` for a non-blank domain, else `user` (the account label).
pub open spec fn qualified_name(username: Seq<char>, domain: Option<Seq<char>>) -> Seq<char> {
    crate::vault::account_label(username, domain)
}

/// The user name that Windows receives for an approved credential.
pub fn qualified_username(username: &str, domain: Option<&str>) -> (r: String)
    ensures
        r@ == qualified_name(
            username@,
            match domain {
                Some(d) => Some(d@),
                None => None,
            },
        ),
{
    match domain {
        Some(d) => {
            if !is_blank(d) {
                let mut r = string_of(d);
                push_char(&mut r, '\\');
                push_str(&mut r, username);
                assert(r@ == d@ + "\\"@ + username@) by {
                    reveal_strlit("\\");
                }
                r
            } else {
                string_of(username)
            }
        },
        None => string_of(username),
    }
}

/// The COM class key: `CLSID\<clsid>`.
pub fn clsid_key(clsid: &str) -> (r: String)
    ensures
        r@ == "CLSID\\"@ + clsid@,
{
    let mut r = string_of("CLSID\\");
    push_str(&mut r, clsid);
    r
}

/// The in-process server key: `CLSID\<clsid>\InprocServer32`.
pub fn inproc_server_key(clsid: &str) -> (r: String)
    ensures
        r@ == "CLSID\\"@ + clsid@ + "\\InprocServer32"@,
{
    let mut r = clsid_key(clsid);
    push_str(&mut r, "\\InprocServer32");
    r
}

/// The key that registers the credential provider with Windows.
pub fn credential_provider_key(clsid: &str) -> (r: String)
    ensures
        r@ == "SOFTWARE\\Microsoft\\Windows\\CurrentVersion\\Authentication\\Credential Providers\\"@
            + clsid@,
{
    let mut r = string_of(
        "SOFTWARE\\Microsoft\\Windows\\CurrentVersion\\Authentication\\Credential Providers\\",
    );
    push_str(&mut r, clsid);
    r
}

/// `HRESULT_FROM_WIN32`: zero becomes `E_FAIL`, any other code keeps its low
/// 16 bits under the Win32 facility with the failure bit set.
pub fn hresult_from_win32(error: u32) -> (r: i32)
    ensures
        error == 0 ==> r == E_FAIL,
        error != 0 ==> r == 0x80070000 + error % 0x10000 - 0x100000000,
{
    if error == 0 {
        E_FAIL
    } else {
        let low = (error % 0x10000) as i32;
        -2147024896 + low
    }
}

/// Flags for `CredPackAuthenticationBufferW`: protected credentials, and the
/// WOW buffer layout when asked.
pub fn credential_pack_flags(use_wow_buffer: bool) -> (r: u32)
    ensures
        use_wow_buffer ==> r == CRED_PACK_PROTECTED_CREDENTIALS + CRED_PACK_WOW_BUFFER,
        !use_wow_buffer ==> r == CRED_PACK_PROTECTED_CREDENTIALS,
{
    let mut flags = CRED_PACK_PROTECTED_CREDENTIALS;
    if use_wow_buffer {
        flags = flags + CRED_PACK_WOW_BUFFER;
    }
    flags
}

/// A COM GUID.
#[derive(Clone, Copy, Debug)]
pub struct Guid {
    pub data1: u32,
    pub data2: u16,
    pub data3: u16,
    pub data4: [u8; 8],
}

/// Whether two GUIDs are equal field by field.
pub fn guid_eq(a: &Guid, b: &Guid) -> (r: bool)
    ensures
        r == (a.data1 == b.data1 && a.data2 == b.data2 && a.data3 == b.data3 && a.data4@
            == b.data4@),
{
    if a.data1 != b.data1 || a.data2 != b.data2 || a.data3 != b.data3 {
        return false;
    }
    let mut i: usize = 0;
    while i < 8
        invariant
            i <= 8,
            a.data4@.len() == 8,
            b.data4@.len() == 8,
            forall|j: int| 0 <= j < i ==> a.data4@[j] == b.data4@[j],
        decreases 8 - i,
    {
        if a.data4[i] != b.data4[i] {
            return false;
        }
        i = i + 1;
    }
    assert(a.data4@ == b.data4@);
    true
}

/// The kinds of field on the provider's tile.
#[derive(Clone, Copy, Debug, PartialEq, Eq)]
pub enum FieldKind {
    SmallText,
    LargeText,
    PasswordText,
    SubmitButton,
}

/// How a field is displayed.
#[derive(Clone, Copy, Debug, PartialEq, Eq)]
pub enum FieldState {
    Hidden,
    DisplayInBoth,
    DisplayInSelectedTile,
}

/// Whether a field takes focus.
#[derive(Clone, Copy, Debug, PartialEq, Eq)]
pub enum FieldInteractiveState {
    Plain,
    Focused,
}

/// The kind and label of a field.
#[derive(Clone, Copy, Debug)]
pub struct FieldMetadata {
    pub field_type: FieldKind,
    pub label: &'static str,
}

/// The kind and label of each of the four fields.
pub fn field_metadata(index: u32) -> (r: Option<FieldMetadata>)
    ensures
        index >= FIELD_COUNT <==> r is None,
        index == FIELD_LABEL ==> (r matches Some(m) && m.field_type == FieldKind::SmallText
            && m.label@ == "OTPUAC"@),
        index == FIELD_TITLE ==> (r matches Some(m) && m.field_type == FieldKind::LargeText
            && m.label@ == "OTPUAC admin elevation"@),
        index == FIELD_TOTP ==> (r matches Some(m) && m.field_type == FieldKind::PasswordText
            && m.label@ == "Authenticator code"@),
        index == FIELD_SUBMIT ==> (r matches Some(m) && m.field_type == FieldKind::SubmitButton
            && m.label@ == "Submit"@),
{
    if index == FIELD_LABEL {
        Some(FieldMetadata { field_type: FieldKind::SmallText, label: "OTPUAC" })
    } else if index == FIELD_TITLE {
        Some(FieldMetadata { field_type: FieldKind::LargeText, label: "OTPUAC admin elevation" })
    } else if index == FIELD_TOTP {
        Some(FieldMetadata { field_type: FieldKind::PasswordText, label: "Authenticator code" })
    } else if index == FIELD_SUBMIT {
        Some(FieldMetadata { field_type: FieldKind::SubmitButton, label: "Submit" })
    } else {
        None
    }
}

/// The display and focus state of each field.
pub fn credential_field_state(field_id: u32) -> (r: Option<(FieldState, FieldInteractiveState)>)
    ensures
        field_id == FIELD_LABEL ==> r == Some((FieldState::Hidden, FieldInteractiveState::Plain)),
        field_id == FIELD_TITLE ==> r == Some(
            (FieldState::DisplayInBoth, FieldInteractiveState::Plain),
        ),
        field_id == FIELD_TOTP ==> r == Some(
            (FieldState::DisplayInSelectedTile, FieldInteractiveState::Focused),
        ),
        field_id == FIELD_SUBMIT ==> r == Some(
            (FieldState::DisplayInSelectedTile, FieldInteractiveState::Plain),
        ),
        field_id >= FIELD_COUNT ==> r is None,
{
    if field_id == FIELD_LABEL {
        Some((FieldState::Hidden, FieldInteractiveState::Plain))
    } else if field_id == FIELD_TITLE {
        Some((FieldState::DisplayInBoth, FieldInteractiveState::Plain))
    } else if field_id == FIELD_TOTP {
        Some((FieldState::DisplayInSelectedTile, FieldInteractiveState::Focused))
    } else if field_id == FIELD_SUBMIT {
        Some((FieldState::DisplayInSelectedTile, FieldInteractiveState::Plain))
    } else {
        None
    }
}

fn units_with_nul(units: &[u16]) -> (r: Vec<u16>)
    ensures
        r@ == units@.push(0u16),
{
    let mut r: Vec<u16> = Vec::new();
    let mut i: usize = 0;
    while i < units.len()
        invariant
            i <= units@.len(),
            r@ == units@.take(i as int),
        decreases units@.len() - i,
    {
        r.push(units[i]);
        assert(units@.take(i + 1) == units@.take(i as int).push(units@[i as int]));
        i = i + 1;
    }
    assert(units@.take(units@.len() as int) == units@);
    r.push(0);
    r
}

fn copy_units(units: &[u16]) -> (r: Vec<u16>)
    ensures
        r@ == units@,
{
    let mut r: Vec<u16> = Vec::new();
    let mut i: usize = 0;
    while i < units.len()
        invariant
            i <= units@.len(),
            r@ == units@.take(i as int),
        decreases units@.len() - i,
    {
        r.push(units[i]);
        assert(units@.take(i + 1) == units@.take(i as int).push(units@[i as int]));
        i = i + 1;
    }
    assert(units@.take(units@.len() as int) == units@);
    r
}

/// The text a field shows, as NUL-terminated UTF-16: the title shows the
/// current status (already terminated) or the prompt when there is none, and
/// the code field shows the typed code.
pub fn credential_field_text(field_id: u32, status: &[u16], totp_code: &[u16]) -> (r: Option<
    Vec<u16>,
>)
    ensures
        field_id == FIELD_LABEL ==> (r matches Some(t) && t@ == utf16_encode("OTPUAC"@).push(0)),
        field_id == FIELD_TITLE && status@.len() == 0 ==> (r matches Some(t) && t@
            == utf16_encode(TITLE_PROMPT@).push(0)),
        field_id == FIELD_TITLE && status@.len() != 0 ==> (r matches Some(t) && t@ == status@),
        field_id == FIELD_TOTP ==> (r matches Some(t) && t@ == totp_code@.push(0)),
        field_id == FIELD_SUBMIT ==> (r matches Some(t) && t@ == utf16_encode("Submit"@).push(0)),
        field_id >= FIELD_COUNT ==> r is None,
{
    if field_id == FIELD_LABEL {
        Some(wide_null("OTPUAC"))
    } else if field_id == FIELD_TITLE {
        if status.len() == 0 {
            Some(wide_null(TITLE_PROMPT))
        } else {
            Some(copy_units(status))
        }
    } else if field_id == FIELD_TOTP {
        Some(units_with_nul(totp_code))
    } else if field_id == FIELD_SUBMIT {
        Some(wide_null("Submit"))
    } else {
        None
    }
}

/// What the tile does with a submitted code.
#[derive(Debug)]
pub enum SubmitOutcome {
    /// Ask for a code: nothing was typed.
    AskForCode,
    /// Pack this credential for Windows.
    Pack { qualified_username: String, password: String },
    /// Show this message as an error.
    ShowError { message: String },
}

/// Whether a typed code is blank, so that the tile asks for one instead of
/// contacting the service.
pub fn submitted_code_is_blank(code: &str) -> (r: bool)
    ensures
        r == (text::trim(code@).len() == 0),
{
    is_blank(code)
}

/// `r` is what the tile does with `answer`: an approval is packed under the
/// qualified user name, a denial or error is shown with its message.
pub open spec fn is_submission_outcome(answer: Result<UnlockDecision, String>, r: SubmitOutcome) -> bool {
    match answer {
        Ok(UnlockDecision::Approved { username, domain, password }) => r matches SubmitOutcome::Pack {
            qualified_username,
            password: p,
        } && qualified_username@ == qualified_name(username@, text::opt_view(domain)) && p@
            == password@,
        Ok(UnlockDecision::Denied { message, .. }) => r matches SubmitOutcome::ShowError {
            message: m,
        } && m@ == message@,
        Ok(UnlockDecision::Error { message }) => r matches SubmitOutcome::ShowError { message: m }
            && m@ == message@,
        Err(message) => r matches SubmitOutcome::ShowError { message: m } && m@ == message@,
    }
}

/// What the tile does with the service's answer (or the transport error): an
/// approval is packed under the qualified user name, a denial or error is
/// shown with its message.
pub fn submission_outcome(answer: Result<UnlockDecision, String>) -> (r: SubmitOutcome)
    ensures
        is_submission_outcome(answer, r),
{
    match answer {
        Ok(UnlockDecision::Approved { username, domain, password }) => {
            let qualified = match &domain {
                Some(d) => qualified_username(username.as_str(), Some(d.as_str())),
                None => qualified_username(username.as_str(), None),
            };
            SubmitOutcome::Pack { qualified_username: qualified, password }
        },
        Ok(UnlockDecision::Denied { message, .. }) => SubmitOutcome::ShowError { message },
        Ok(UnlockDecision::Error { message }) => SubmitOutcome::ShowError { message },
        Err(message) => SubmitOutcome::ShowError { message },
    }
}

/// `CREDUIWIN_PACK_32_WOW`: the caller wants the 32-bit credential layout.
pub const CREDUIWIN_PACK_32_WOW: u32 = 0x10000000;

/// The most UTF-16 units of a typed code that the tile keeps.
pub const MAX_TOTP_CODE_UNITS: usize = 16;

/// The state of the provider's credential tile: the CredUI flags it was
/// created with, the status line (NUL-terminated UTF-16, empty while unset)
/// and the code typed so far (UTF-16, without terminator).
pub struct TileState {
    pub cred_ui_flags: u32,
    pub status: Vec<u16>,
    pub totp_code: Vec<u16>,
}

impl TileState {
    /// A tile with no status and no code.
    pub fn new(cred_ui_flags: u32) -> (r: Self)
        ensures
            r.cred_ui_flags == cred_ui_flags,
            r.status@ == Seq::<u16>::empty(),
            r.totp_code@ == Seq::<u16>::empty(),
    {
        TileState { cred_ui_flags, status: Vec::new(), totp_code: Vec::new() }
    }

    /// Shows `message` on the status line.
    pub fn set_status(&mut self, message: &str)
        ensures
            final(self).status@ == utf16_encode(message@).push(0),
            final(self).totp_code@ == old(self).totp_code@,
            final(self).cred_ui_flags == old(self).cred_ui_flags,
    {
        self.status = wide_null(message);
    }

    /// Wipes the typed code.
    pub fn clear_totp_code(&mut self)
        ensures
            final(self).totp_code@ == Seq::<u16>::empty(),
            final(self).status@ == old(self).status@,
            final(self).cred_ui_flags == old(self).cred_ui_flags,
    {
        zeroize_units(&mut self.totp_code);
    }

    /// Text typed into a field. Only the code field takes text: the old code
    /// is wiped and the new one kept up to its first NUL, at most
    /// `MAX_TOTP_CODE_UNITS` units. Any other field is refused and nothing
    /// changes.
    pub fn set_string_value(&mut self, field_id: u32, value: &[u16]) -> (r: bool)
        ensures
            r == (field_id == FIELD_TOTP),
            final(self).status@ == old(self).status@,
            final(self).cred_ui_flags == old(self).cred_ui_flags,
            !r ==> final(self).totp_code@ == old(self).totp_code@,
            r ==> is_wide_end(value@, MAX_TOTP_CODE_UNITS as int, final(self).totp_code@.len() as int)
                && final(self).totp_code@ == value@.take(final(self).totp_code@.len() as int),
    {
        if field_id != FIELD_TOTP {
            return false;
        }
        zeroize_units(&mut self.totp_code);
        self.totp_code = wide_ptr_to_vec(value, MAX_TOTP_CODE_UNITS);
        true
    }

    /// The text a field shows (see `credential_field_text`).
    pub fn string_value(&self, field_id: u32) -> (r: Option<Vec<u16>>)
        ensures
            field_id == FIELD_LABEL ==> (r matches Some(t) && t@ == utf16_encode("OTPUAC"@).push(0)),
            field_id == FIELD_TITLE && self.status@.len() == 0 ==> (r matches Some(t) && t@
                == utf16_encode(TITLE_PROMPT@).push(0)),
            field_id == FIELD_TITLE && self.status@.len() != 0 ==> (r matches Some(t) && t@
                == self.status@),
            field_id == FIELD_TOTP ==> (r matches Some(t) && t@ == self.totp_code@.push(0)),
            field_id == FIELD_SUBMIT ==> (r matches Some(t) && t@ == utf16_encode("Submit"@).push(0)),
            field_id >= FIELD_COUNT ==> r is None,
    {
        credential_field_text(field_id, self.status.as_slice(), self.totp_code.as_slice())
    }

    /// Whether the credential is to be packed in the 32-bit layout.
    pub fn uses_wow_buffer(&self) -> (r: bool)
        ensures
            r == (self.cred_ui_flags & CREDUIWIN_PACK_32_WOW != 0),
    {
        self.cred_ui_flags & CREDUIWIN_PACK_32_WOW != 0
    }

    /// The typed code to send to the service. A blank code is not sent: the
    /// status line then asks for a code.
    pub fn submitted_code(&mut self) -> (r: Option<String>)
        ensures
            final(self).totp_code@ == old(self).totp_code@,
            final(self).cred_ui_flags == old(self).cred_ui_flags,
            text::trim(utf16_lossy_decode(old(self).totp_code@)).len() == 0 ==> r is None
                && final(self).status@ == utf16_encode(STATUS_ENTER_CODE@).push(0),
            text::trim(utf16_lossy_decode(old(self).totp_code@)).len() != 0 ==> (r matches Some(c)
                && c@ == utf16_lossy_decode(old(self).totp_code@)) && final(self).status@ == old(
                self,
            ).status@,
    {
        let code = wide_vec_to_string(self.totp_code.as_slice());
        if is_blank(code.as_str()) {
            self.set_status(STATUS_ENTER_CODE);
            None
        } else {
            Some(code)
        }
    }

    /// Takes the service's answer to a submitted code: the typed code is
    /// wiped after every answer, an approval as well as a denial or an error,
    /// and a denial or error becomes the status line.
    pub fn answer_received(&mut self, answer: Result<UnlockDecision, String>) -> (r: SubmitOutcome)
        ensures
            is_submission_outcome(answer, r),
            final(self).totp_code@ == Seq::<u16>::empty(),
            final(self).cred_ui_flags == old(self).cred_ui_flags,
            r is Pack ==> final(self).status@ == old(self).status@,
            r matches SubmitOutcome::ShowError { message } ==> final(self).status@ == utf16_encode(
                message@,
            ).push(0),
    {
        self.clear_totp_code();
        let outcome = submission_outcome(answer);
        if let SubmitOutcome::ShowError { message } = &outcome {
            self.set_status(message.as_str());
        }
        outcome
    }

    /// Records whether the approved credential could be packed for Windows.
    pub fn packing_finished(&mut self, packed: bool)
        ensures
            packed ==> final(self).status@ == utf16_encode(STATUS_CODE_ACCEPTED@).push(0),
            !packed ==> final(self).status@ == utf16_encode(STATUS_PACK_FAILED@).push(0),
            final(self).totp_code@ == old(self).totp_code@,
            final(self).cred_ui_flags == old(self).cred_ui_flags,
    {
        if packed {
            self.set_status(STATUS_CODE_ACCEPTED);
        } else {
            self.set_status(STATUS_PACK_FAILED);
        }
    }
}

} // verus!
