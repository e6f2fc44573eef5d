//! Installation logic: account name rules, setup metadata, the enrollment
//! sheet and the generated account password.

use rand::rngs::OsRng;
use rand::seq::SliceRandom;
use vstd::prelude::*;
use vstd::string::*;
use vstd::utf8::*;

use crate::error::OtpuacError;
use crate::paths::{
    is_joined, is_plain_component, is_verbatim, join_path, ADMIN_EXE, PROVIDER_DLL, SERVICE_EXE, SERVICE_NAME,
};
use crate::text;
use crate::text::{chars_of, copy_string, push_str, str_eq, string_from_chars, string_of};
use crate::totp::TotpPolicy;
use crate::vault::{ManagedAccount, VaultFile};

verus! {

pub const MAX_LOCAL_ACCOUNT_NAME_BYTES: usize = 20;

/// Characters that Windows does not allow in local account names.
pub const INVALID_LOCAL_ACCOUNT_CHARS: &'static str = "\"/\\[]:;|=,+*?<>@";

pub const MANAGED_INSTALL_KIND: &'static str = "managed-local-admin";

pub const SETUP_METADATA_VERSION: u32 = 1;

pub const PASSWORD_LEN: usize = 32;

pub const LOWER: &'static str = "abcdefghijkmnopqrstuvwxyz";

pub const UPPER: &'static str = "ABCDEFGHJKLMNPQRSTUVWXYZ";

pub const DIGITS: &'static str = "23456789";

pub const SYMBOLS: &'static str = "!#$%+-.=?@_";

/// Whether Windows refuses `ch` in a local account name.
pub fn is_invalid_local_account_char(ch: char) -> (r: bool)
    ensures
        r == INVALID_LOCAL_ACCOUNT_CHARS@.contains(ch),
{
    let invalid = chars_of(INVALID_LOCAL_ACCOUNT_CHARS);
    let mut i: usize = 0;
    while i < invalid.len()
        invariant
            i <= invalid@.len(),
            invalid@ == INVALID_LOCAL_ACCOUNT_CHARS@,
            forall|j: int| 0 <= j < i ==> invalid@[j] != ch,
        decreases invalid@.len() - i,
    {
        if invalid[i] == ch {
            return true;
        }
        i = i + 1;
    }
    false
}

/// The reason a name is not a usable local account name, if any.
pub open spec fn account_name_problem(name: Seq<char>) -> Option<Seq<char>> {
    if text::trim(name).len() == 0 {
        Some("managed account name is required"@)
    } else if text::trim(name) != name {
        Some("managed account name must not start or end with whitespace"@)
    } else if encode_utf8(name).len() > MAX_LOCAL_ACCOUNT_NAME_BYTES || exists|i: int|
        0 <= i < name.len() && INVALID_LOCAL_ACCOUNT_CHARS@.contains(#[trigger] name[i]) {
        Some("managed account name is not a valid local Windows account name"@)
    } else {
        None
    }
}

/// Checks a name for the managed local account: not blank, no surrounding
/// whitespace, at most 20 bytes, and none of the characters Windows refuses.
pub fn validate_local_account_name(account_name: &str) -> (r: Result<(), OtpuacError>)
    ensures
        r is Ok <==> account_name_problem(account_name@) is None,
        r matches Err(e) ==> (e matches OtpuacError::InvalidVault(m) && account_name_problem(
            account_name@,
        ) == Some(m@)),
{
    let cs = chars_of(account_name);
    let trimmed = text::trim_chars(cs.as_slice());
    if trimmed.len() == 0 {
        return Err(OtpuacError::InvalidVault(string_of("managed account name is required")));
    }
    let trimmed_text = string_from_chars(trimmed.as_slice());
    if !str_eq(trimmed_text.as_str(), account_name) {
        return Err(
            OtpuacError::InvalidVault(
                string_of("managed account name must not start or end with whitespace"),
            ),
        );
    }
    let mut has_invalid = false;
    let mut i: usize = 0;
    while i < cs.len()
        invariant
            i <= cs@.len(),
            cs@ == account_name@,
            has_invalid == exists|j: int|
                0 <= j < i && INVALID_LOCAL_ACCOUNT_CHARS@.contains(#[trigger] cs@[j]),
        decreases cs@.len() - i,
    {
        if is_invalid_local_account_char(cs[i]) {
            has_invalid = true;
        }
        i = i + 1;
    }
    if account_name.as_bytes().len() > MAX_LOCAL_ACCOUNT_NAME_BYTES || has_invalid {
        return Err(
            OtpuacError::InvalidVault(
                string_of("managed account name is not a valid local Windows account name"),
            ),
        );
    }
    Ok(())
}

/// What setup records about an installation.
#[derive(Clone, Debug)]
pub struct SetupMetadata {
    pub version: u32,
    pub install_kind: String,
    pub managed_account_username: String,
    pub managed_account_domain: Option<String>,
    pub managed_account_sid: String,
    pub managed_account_created_by_otpuac: bool,
    pub install_dir: String,
    pub service_name: String,
    pub created_at_unix: u64,
}

/// The metadata of a new managed installation for `account`.
pub fn managed_install_metadata(
    account: &ManagedAccount,
    account_sid: String,
    install_dir: &str,
    created_at_unix: u64,
) -> (r: SetupMetadata)
    ensures
        r.version == SETUP_METADATA_VERSION,
        r.install_kind@ == MANAGED_INSTALL_KIND@,
        r.managed_account_username@ == account.username@,
        text::opt_view(r.managed_account_domain) == text::opt_view(account.domain),
        r.managed_account_sid == account_sid,
        r.managed_account_created_by_otpuac,
        r.install_dir@ == install_dir@,
        r.service_name@ == SERVICE_NAME@,
        r.created_at_unix == created_at_unix,
{
    SetupMetadata {
        version: SETUP_METADATA_VERSION,
        install_kind: string_of(MANAGED_INSTALL_KIND),
        managed_account_username: copy_string(&account.username),
        managed_account_domain: match &account.domain {
            Some(d) => Some(copy_string(d)),
            None => None,
        },
        managed_account_sid: account_sid,
        managed_account_created_by_otpuac: true,
        install_dir: string_of(install_dir),
        service_name: string_of(SERVICE_NAME),
        created_at_unix,
    }
}

/// Metadata that setup itself wrote for a managed installation.
pub open spec fn is_otpuac_metadata(metadata: SetupMetadata) -> bool {
    &&& metadata.version == SETUP_METADATA_VERSION
    &&& metadata.install_kind@ == MANAGED_INSTALL_KIND@
    &&& metadata.service_name@ == SERVICE_NAME@
}

/// Whether removing the data directory is allowed: only with metadata that
/// setup wrote for a managed installation.
pub fn validate_remove_data_target(program_data: &str, metadata: Option<&SetupMetadata>) -> (r:
    Result<(), OtpuacError>)
    ensures
        metadata is None ==> (r matches Err(OtpuacError::InvalidConfig(m)) && m@
            == "refusing to remove "@ + program_data@
            + " because OTPUAC setup metadata is missing"@),
        metadata matches Some(md) ==> (is_otpuac_metadata(*md) <==> r is Ok),
        metadata matches Some(md) && !is_otpuac_metadata(*md) ==> (r matches Err(
            OtpuacError::InvalidConfig(m),
        ) && m@ == "refusing to remove "@ + program_data@
            + " because OTPUAC setup metadata is not valid"@),
{
    let metadata = match metadata {
        Some(m) => m,
        None => {
            let mut m = string_of("refusing to remove ");
            push_str(&mut m, program_data);
            push_str(&mut m, " because OTPUAC setup metadata is missing");
            return Err(OtpuacError::InvalidConfig(m));
        },
    };
    if metadata.version != SETUP_METADATA_VERSION || !str_eq(
        metadata.install_kind.as_str(),
        MANAGED_INSTALL_KIND,
    ) || !str_eq(metadata.service_name.as_str(), SERVICE_NAME) {
        let mut m = string_of("refusing to remove ");
        push_str(&mut m, program_data);
        push_str(&mut m, " because OTPUAC setup metadata is not valid");
        return Err(OtpuacError::InvalidConfig(m));
    }
    Ok(())
}

/// Whether an existing installation is to be reused: both files present
/// means yes, neither or only the metadata means a new installation, and a
/// vault without metadata is refused.
pub fn existing_install_plan(
    metadata_path: &str,
    vault_path: &str,
    metadata_exists: bool,
    vault_exists: bool,
) -> (r: Result<bool, OtpuacError>)
    ensures
        metadata_exists && vault_exists ==> r == Ok::<bool, OtpuacError>(true),
        !vault_exists ==> r == Ok::<bool, OtpuacError>(false),
        !metadata_exists && vault_exists ==> (r matches Err(OtpuacError::InvalidConfig(m)) && m@
            == vault_path@ + " already exists but "@ + metadata_path@
            + " is missing; uninstall or recover manually before reinstalling"@),
{
    if metadata_exists && vault_exists {
        Ok(true)
    } else if vault_exists {
        let mut m = string_of(vault_path);
        push_str(&mut m, " already exists but ");
        push_str(&mut m, metadata_path);
        push_str(&mut m, " is missing; uninstall or recover manually before reinstalling");
        Err(OtpuacError::InvalidConfig(m))
    } else {
        Ok(false)
    }
}

/// The enrollment sheet written for the administrator.
pub open spec fn enrollment_text(
    account: Seq<char>,
    sid: Seq<char>,
    secret: Seq<char>,
    uri: Seq<char>,
    admin: Seq<char>,
) -> Seq<char> {
    "OTPUAC authenticator enrollment\r\n\r\nManaged account: "@ + account + "\r\nAccount SID: "@
        + sid + "\r\n\r\nAdd a new TOTP account in your authenticator app with this secret:\r\n"@
        + secret + "\r\n\r\nEnrollment URI:\r\n"@ + uri
        + "\r\n\r\nAfter enrollment, verify a code.\r\n\r\nFrom elevated PowerShell:\r\n& \""@
        + admin + "\" verify --code 123456\r\n\r\nFrom elevated Command Prompt:\r\n\""@ + admin
        + "\" verify --code 123456\r\n"@
}

/// The enrollment sheet: account, SID, secret, URI and how to verify a code
/// with the admin tool at `admin`.
pub fn enrollment_contents(
    metadata: &SetupMetadata,
    vault: &VaultFile,
    secret: &str,
    uri: &str,
    admin: &str,
) -> (r: String)
    ensures
        r@ == enrollment_text(
            vault.account.label_text(),
            metadata.managed_account_sid@,
            secret@,
            uri@,
            admin@,
        ),
{
    let account = vault.account.label();
    let mut r = string_of("OTPUAC authenticator enrollment\r\n\r\nManaged account: ");
    push_str(&mut r, account.as_str());
    push_str(&mut r, "\r\nAccount SID: ");
    push_str(&mut r, metadata.managed_account_sid.as_str());
    push_str(&mut r, "\r\n\r\nAdd a new TOTP account in your authenticator app with this secret:\r\n");
    push_str(&mut r, secret);
    push_str(&mut r, "\r\n\r\nEnrollment URI:\r\n");
    push_str(&mut r, uri);
    push_str(
        &mut r,
        "\r\n\r\nAfter enrollment, verify a code.\r\n\r\nFrom elevated PowerShell:\r\n& \"",
    );
    push_str(&mut r, admin);
    push_str(&mut r, "\" verify --code 123456\r\n\r\nFrom elevated Command Prompt:\r\n\"");
    push_str(&mut r, admin);
    push_str(&mut r, "\" verify --code 123456\r\n");
    r
}

/// `SliceRandom::choose` with `OsRng`: a uniformly random element, `None`
/// only for an empty slice.
#[verifier::external_body]
fn choose_random(options: &[char]) -> (r: Option<char>)
    ensures
        r is None <==> options@.len() == 0,
        r matches Some(c) ==> options@.contains(c),
{
    options.choose(&mut OsRng).copied()
}

/// `SliceRandom::shuffle` with `OsRng`: a random permutation in place.
#[verifier::external_body]
fn shuffle_random(v: &mut Vec<char>)
    ensures
        final(v)@.len() == old(v)@.len(),
        final(v)@.to_multiset() == old(v)@.to_multiset(),
{
    v.shuffle(&mut OsRng);
}

/// The characters a generated password draws from.
pub open spec fn password_alphabet() -> Seq<char> {
    LOWER@ + UPPER@ + DIGITS@ + SYMBOLS@
}

/// `s` holds a character of `class`.
pub open spec fn has_char_of(s: Seq<char>, class: Seq<char>) -> bool {
    exists|i: int| 0 <= i < s.len() && class.contains(#[trigger] s[i])
}

fn append_chars(out: &mut Vec<char>, more: &Vec<char>)
    ensures
        final(out)@ == old(out)@ + more@,
{
    let mut i: usize = 0;
    let ghost start = out@;
    while i < more.len()
        invariant
            i <= more@.len(),
            out@ == start + more@.take(i as int),
        decreases more@.len() - i,
    {
        out.push(more[i]);
        assert(more@.take(i + 1) == more@.take(i as int).push(more@[i as int]));
        i = i + 1;
    }
    assert(more@.take(more@.len() as int) == more@);
}

proof fn lemma_keeps_class(before: Seq<char>, after: Seq<char>, k: int, class: Seq<char>)
    requires
        0 <= k < before.len(),
        class.contains(before[k]),
        after.to_multiset() == before.to_multiset(),
    ensures
        has_char_of(after, class),
{
    broadcast use vstd::seq_lib::group_to_multiset_ensures;

    assert(before.contains(before[k]));
    assert(after.to_multiset().count(before[k]) > 0);
    assert(after.contains(before[k]));
    let j = choose|j: int| 0 <= j < after.len() && after[j] == before[k];
    assert(class.contains(after[j]));
}

/// A random password of `PASSWORD_LEN` characters from the password
/// alphabet, with at least one lowercase letter, uppercase letter, digit and
/// symbol.
pub fn generate_windows_password() -> (r: String)
    ensures
        r@.len() == PASSWORD_LEN,
        forall|i: int| 0 <= i < r@.len() ==> password_alphabet().contains(#[trigger] r@[i]),
        has_char_of(r@, LOWER@),
        has_char_of(r@, UPPER@),
        has_char_of(r@, DIGITS@),
        has_char_of(r@, SYMBOLS@),
{
    broadcast use vstd::seq_lib::group_to_multiset_ensures;

    let lower = chars_of(LOWER);
    let upper = chars_of(UPPER);
    let digits = chars_of(DIGITS);
    let symbols = chars_of(SYMBOLS);
    proof {
        reveal_strlit("abcdefghijkmnopqrstuvwxyz");
        reveal_strlit("ABCDEFGHJKLMNPQRSTUVWXYZ");
        reveal_strlit("23456789");
        reveal_strlit("!#$%+-.=?@_");
    }
    let mut alphabet: Vec<char> = Vec::new();
    append_chars(&mut alphabet, &lower);
    append_chars(&mut alphabet, &upper);
    append_chars(&mut alphabet, &digits);
    append_chars(&mut alphabet, &symbols);
    assert(alphabet@ == password_alphabet());

    let mut chars: Vec<char> = Vec::new();
    let a = choose_random(lower.as_slice()).unwrap();
    chars.push(a);
    let b = choose_random(upper.as_slice()).unwrap();
    chars.push(b);
    let c = choose_random(digits.as_slice()).unwrap();
    chars.push(c);
    let d = choose_random(symbols.as_slice()).unwrap();
    chars.push(d);
    assert(LOWER@.contains(chars@[0]));
    assert(UPPER@.contains(chars@[1]));
    assert(DIGITS@.contains(chars@[2]));
    assert(SYMBOLS@.contains(chars@[3]));
    assert forall|i: int| 0 <= i < chars@.len() implies password_alphabet().contains(
        #[trigger] chars@[i],
    ) by {
        let x = chars@[i];
        if i == 0 {
            let k = choose|k: int| 0 <= k < LOWER@.len() && LOWER@[k] == x;
            assert(password_alphabet()[k] == x);
        } else if i == 1 {
            let k = choose|k: int| 0 <= k < UPPER@.len() && UPPER@[k] == x;
            assert(password_alphabet()[LOWER@.len() + k] == x);
        } else if i == 2 {
            let k = choose|k: int| 0 <= k < DIGITS@.len() && DIGITS@[k] == x;
            assert(password_alphabet()[LOWER@.len() + UPPER@.len() + k] == x);
        } else {
            let k = choose|k: int| 0 <= k < SYMBOLS@.len() && SYMBOLS@[k] == x;
            assert(password_alphabet()[LOWER@.len() + UPPER@.len() + DIGITS@.len() + k] == x);
        }
    }
    while chars.len() < PASSWORD_LEN
        invariant
            4 <= chars@.len() <= PASSWORD_LEN,
            alphabet@ == password_alphabet(),
            alphabet@.len() > 0,
            LOWER@.contains(chars@[0]),
            UPPER@.contains(chars@[1]),
            DIGITS@.contains(chars@[2]),
            SYMBOLS@.contains(chars@[3]),
            forall|i: int| 0 <= i < chars@.len() ==> password_alphabet().contains(#[trigger] chars@[i]),
        decreases PASSWORD_LEN - chars@.len(),
    {
        let x = choose_random(alphabet.as_slice()).unwrap();
        chars.push(x);
    }
    let ghost before = chars@;
    shuffle_random(&mut chars);
    proof {
        lemma_keeps_class(before, chars@, 0, LOWER@);
        lemma_keeps_class(before, chars@, 1, UPPER@);
        lemma_keeps_class(before, chars@, 2, DIGITS@);
        lemma_keeps_class(before, chars@, 3, SYMBOLS@);
        assert forall|i: int| 0 <= i < chars@.len() implies password_alphabet().contains(
            #[trigger] chars@[i],
        ) by {
            assert(chars@.contains(chars@[i]));
            assert(before.to_multiset().count(chars@[i]) > 0);
            assert(before.contains(chars@[i]));
            let j = choose|j: int| 0 <= j < before.len() && before[j] == chars@[i];
            assert(password_alphabet().contains(before[j]));
        }
    }
    string_from_chars(chars.as_slice())
}

proof fn lemma_artifact_names()
    ensures
        is_plain_component(PROVIDER_DLL@),
        is_plain_component(SERVICE_EXE@),
        is_plain_component(ADMIN_EXE@),
{
    reveal_strlit("otpuac_provider_rs.dll");
    reveal_strlit("otpuac-service.exe");
    reveal_strlit("otpuac-admin.exe");
}

/// The files an installation directory must hold, in the order they are
/// checked: the credential provider, the service and the admin tool.
pub fn installed_artifact_paths(install_dir: &str) -> (r: Vec<String>)
    ensures
        r@.len() == 3,
        !is_verbatim(install_dir@) ==> is_joined(install_dir@, PROVIDER_DLL@, r@[0]@),
        !is_verbatim(install_dir@) ==> is_joined(install_dir@, SERVICE_EXE@, r@[1]@),
        !is_verbatim(install_dir@) ==> is_joined(install_dir@, ADMIN_EXE@, r@[2]@),
{
    proof {
        lemma_artifact_names();
    }
    let mut r: Vec<String> = Vec::new();
    r.push(join_path(install_dir, PROVIDER_DLL));
    r.push(join_path(install_dir, SERVICE_EXE));
    r.push(join_path(install_dir, ADMIN_EXE));
    r
}

/// Checks the installed artifacts, given whether each of `paths` exists: the
/// first missing one is reported.
pub fn validate_installed_files(paths: &[String], present: &[bool]) -> (r: Result<(), OtpuacError>)
    requires
        paths@.len() == present@.len(),
    ensures
        r is Ok <==> forall|i: int| 0 <= i < present@.len() ==> #[trigger] present@[i],
        r is Err ==> exists|k: int|
            0 <= k < present@.len() && !present@[k] && (forall|i: int|
                0 <= i < k ==> #[trigger] present@[i]) && (r matches Err(
                OtpuacError::InvalidVault(m),
            ) && m@ == "missing installed artifact: "@ + paths@[k]@),
{
    let mut i: usize = 0;
    while i < present.len()
        invariant
            i <= present@.len() == paths@.len(),
            forall|j: int| 0 <= j < i ==> #[trigger] present@[j],
        decreases present@.len() - i,
    {
        if !present[i] {
            let mut m = string_of("missing installed artifact: ");
            push_str(&mut m, paths[i].as_str());
            return Err(OtpuacError::InvalidVault(m));
        }
        i = i + 1;
    }
    Ok(())
}

/// The TOTP policy of a new installation: the defaults, under `issuer`.
pub fn install_policy(issuer: String) -> (r: TotpPolicy)
    ensures
        r.digits == crate::totp::DEFAULT_DIGITS,
        r.step_seconds == crate::totp::DEFAULT_STEP_SECONDS,
        r.skew_steps == crate::totp::DEFAULT_SKEW_STEPS,
        r.issuer == issuer,
{
    TotpPolicy {
        digits: crate::totp::DEFAULT_DIGITS,
        step_seconds: crate::totp::DEFAULT_STEP_SECONDS,
        skew_steps: crate::totp::DEFAULT_SKEW_STEPS,
        issuer,
    }
}

/// One platform operation of an uninstallation. Account operations apply to
/// the managed account named in the setup metadata.
#[derive(Clone, Copy, Debug, PartialEq, Eq, Structural)]
pub enum UninstallStep {
    StopAndDeleteService,
    UnregisterEventLogSource,
    UnregisterProvider,
    UnhideManagedAccount,
    DeleteManagedAccount,
    RemoveDataDir,
}

/// Setup created the managed account recorded in `metadata`.
pub open spec fn created_account(metadata: Option<SetupMetadata>) -> bool {
    metadata matches Some(md) && md.managed_account_created_by_otpuac
}

/// The removal of the data directory is allowed for `metadata`.
pub open spec fn data_removal_allowed(metadata: Option<SetupMetadata>) -> bool {
    metadata matches Some(md) && is_otpuac_metadata(md)
}

/// The operations of an uninstallation, in order: the service and the event
/// log source go; the provider is unregistered when its DLL is present; an
/// account that setup created is shown at sign-in again and, when asked,
/// deleted; the data directory goes last, when asked, present and allowed.
pub open spec fn uninstall_steps(
    metadata: Option<SetupMetadata>,
    provider_dll_exists: bool,
    program_data_exists: bool,
    remove_data: bool,
    remove_created_account: bool,
) -> Seq<UninstallStep> {
    seq![UninstallStep::StopAndDeleteService, UninstallStep::UnregisterEventLogSource] + (
    if provider_dll_exists {
        seq![UninstallStep::UnregisterProvider]
    } else {
        Seq::empty()
    }) + (if created_account(metadata) {
        seq![UninstallStep::UnhideManagedAccount] + if remove_created_account {
            seq![UninstallStep::DeleteManagedAccount]
        } else {
            Seq::empty()
        }
    } else {
        Seq::empty()
    }) + (if remove_data && data_removal_allowed(metadata) && program_data_exists {
        seq![UninstallStep::RemoveDataDir]
    } else {
        Seq::empty()
    })
}

/// The uninstallation of the installation whose data directory is
/// `program_data`: the operations to perform in order, then the outcome once
/// they have all succeeded. Asking to remove the data without valid setup
/// metadata fails after the other operations, and the directory is kept.
pub fn uninstall_plan(
    program_data: &str,
    metadata: Option<&SetupMetadata>,
    provider_dll_exists: bool,
    program_data_exists: bool,
    remove_data: bool,
    remove_created_account: bool,
) -> (r: (Vec<UninstallStep>, Result<(), OtpuacError>))
    ensures
        r.0@ == uninstall_steps(
            match metadata {
                Some(md) => Some(*md),
                None => None,
            },
            provider_dll_exists,
            program_data_exists,
            remove_data,
            remove_created_account,
        ),
        !remove_data ==> r.1 is Ok,
        remove_data ==> (r.1 is Ok <==> data_removal_allowed(
            match metadata {
                Some(md) => Some(*md),
                None => None,
            },
        )),
        remove_data && metadata is None ==> (r.1 matches Err(OtpuacError::InvalidConfig(m)) && m@
            == "refusing to remove "@ + program_data@
            + " because OTPUAC setup metadata is missing"@),
        remove_data && (metadata matches Some(md) && !is_otpuac_metadata(*md)) ==> (r.1 matches Err(
            OtpuacError::InvalidConfig(m),
        ) && m@ == "refusing to remove "@ + program_data@
            + " because OTPUAC setup metadata is not valid"@),
{
    let ghost md_view = match metadata {
        Some(md) => Some(*md),
        None => None,
    };
    let mut steps: Vec<UninstallStep> = Vec::new();
    steps.push(UninstallStep::StopAndDeleteService);
    steps.push(UninstallStep::UnregisterEventLogSource);
    if provider_dll_exists {
        steps.push(UninstallStep::UnregisterProvider);
    }
    let ghost after_provider = steps@;
    let created = match metadata {
        Some(md) => md.managed_account_created_by_otpuac,
        None => false,
    };
    if created {
        steps.push(UninstallStep::UnhideManagedAccount);
        if remove_created_account {
            steps.push(UninstallStep::DeleteManagedAccount);
        }
    }
    let ghost after_account = steps@;
    let outcome = if remove_data {
        validate_remove_data_target(program_data, metadata)
    } else {
        Ok(())
    };
    if remove_data && outcome.is_ok() && program_data_exists {
        steps.push(UninstallStep::RemoveDataDir);
    }
    proof {
        let provider_part: Seq<UninstallStep> = if provider_dll_exists {
            seq![UninstallStep::UnregisterProvider]
        } else {
            Seq::empty()
        };
        let account_part: Seq<UninstallStep> = if created_account(md_view) {
            seq![UninstallStep::UnhideManagedAccount] + if remove_created_account {
                seq![UninstallStep::DeleteManagedAccount]
            } else {
                Seq::empty()
            }
        } else {
            Seq::empty()
        };
        assert(after_provider =~= seq![
            UninstallStep::StopAndDeleteService,
            UninstallStep::UnregisterEventLogSource,
        ] + provider_part);
        assert(after_account =~= after_provider + account_part);
    }
    (steps, outcome)
}

/// One operation of an installation, once the account name and the installed
/// files have been checked, the data directory created and secured, and
/// `existing_install_plan` has said whether an installation is already there.
#[derive(Clone, Copy, Debug, PartialEq, Eq, Structural)]
pub enum InstallStep {
    ReadExistingInstall,
    CreateManagedAccount,
    HideManagedAccount,
    WriteVault,
    WriteMetadata,
    RegisterProvider,
    RegisterEventLogSource,
    InstallService,
    WriteEnrollmentFile,
}

/// The operations of an installation, in order: an existing installation is
/// read back, or else a new managed account is created and hidden from
/// sign-in and the vault and metadata are written; then the provider, the
/// event log source and the service are registered, and the enrollment sheet
/// is written when asked.
pub open spec fn install_steps(reuse_existing: bool, write_enrollment: bool) -> Seq<InstallStep> {
    (if reuse_existing {
        seq![InstallStep::ReadExistingInstall]
    } else {
        seq![
            InstallStep::CreateManagedAccount,
            InstallStep::HideManagedAccount,
            InstallStep::WriteVault,
            InstallStep::WriteMetadata,
        ]
    }) + seq![
        InstallStep::RegisterProvider,
        InstallStep::RegisterEventLogSource,
        InstallStep::InstallService,
    ] + (if write_enrollment {
        seq![InstallStep::WriteEnrollmentFile]
    } else {
        Seq::empty()
    })
}

/// The operations of an installation (see `install_steps`); `reuse_existing`
/// is the answer of `existing_install_plan`.
pub fn install_plan(reuse_existing: bool, write_enrollment: bool) -> (r: Vec<InstallStep>)
    ensures
        r@ == install_steps(reuse_existing, write_enrollment),
{
    let mut steps: Vec<InstallStep> = Vec::new();
    if reuse_existing {
        steps.push(InstallStep::ReadExistingInstall);
    } else {
        steps.push(InstallStep::CreateManagedAccount);
        steps.push(InstallStep::HideManagedAccount);
        steps.push(InstallStep::WriteVault);
        steps.push(InstallStep::WriteMetadata);
    }
    let ghost middle = steps@;
    steps.push(InstallStep::RegisterProvider);
    steps.push(InstallStep::RegisterEventLogSource);
    steps.push(InstallStep::InstallService);
    let ghost registered = steps@;
    if write_enrollment {
        steps.push(InstallStep::WriteEnrollmentFile);
    }
    proof {
        assert(registered =~= middle + seq![
            InstallStep::RegisterProvider,
            InstallStep::RegisterEventLogSource,
            InstallStep::InstallService,
        ]);
    }
    steps
}

/// A failure at `step` is undone (the new account shown again and deleted,
/// the vault and metadata files removed) exactly when this installation
/// created the account: for a new installation, at any step after the account
/// was created.
pub fn rolls_back_on_failure(step: InstallStep, reuse_existing: bool) -> (r: bool)
    ensures
        r == (!reuse_existing && step != InstallStep::ReadExistingInstall && step
            != InstallStep::CreateManagedAccount),
{
    !reuse_existing && match step {
        InstallStep::ReadExistingInstall => false,
        InstallStep::CreateManagedAccount => false,
        _ => true,
    }
}

/// One operation of undoing a failed new installation.
#[derive(Clone, Copy, Debug, PartialEq, Eq, Structural)]
pub enum RollbackStep {
    UnhideManagedAccount,
    DeleteManagedAccount,
    RemoveMetadataFile,
    RemoveVaultFile,
}

/// What undoing a failure at `step` does, in order: when the failure is
/// undone (see `rolls_back_on_failure`), the new account is shown at sign-in
/// again and deleted, and the metadata and vault files are removed; each is
/// attempted whatever the others gave. Otherwise nothing is done.
pub open spec fn rollback_steps(step: InstallStep, reuse_existing: bool) -> Seq<RollbackStep> {
    if !reuse_existing && step != InstallStep::ReadExistingInstall && step
        != InstallStep::CreateManagedAccount {
        seq![
            RollbackStep::UnhideManagedAccount,
            RollbackStep::DeleteManagedAccount,
            RollbackStep::RemoveMetadataFile,
            RollbackStep::RemoveVaultFile,
        ]
    } else {
        Seq::empty()
    }
}

/// The operations that undo a failure at `step` (see `rollback_steps`).
pub fn rollback_plan(step: InstallStep, reuse_existing: bool) -> (r: Vec<RollbackStep>)
    ensures
        r@ == rollback_steps(step, reuse_existing),
{
    let mut steps: Vec<RollbackStep> = Vec::new();
    if rolls_back_on_failure(step, reuse_existing) {
        steps.push(RollbackStep::UnhideManagedAccount);
        steps.push(RollbackStep::DeleteManagedAccount);
        steps.push(RollbackStep::RemoveMetadataFile);
        steps.push(RollbackStep::RemoveVaultFile);
    }
    steps
}

/// What an uninstallation removes: the service and the event log source
/// always go; the provider is unregistered exactly when its DLL is present;
/// an account is shown at sign-in again exactly when setup created it, and
/// deleted exactly when setup created it and its removal is asked for,
/// whatever is decided about the data; the data directory goes exactly when
/// its removal is asked for, allowed and the directory is present.
pub proof fn law_uninstall_removes_what_was_asked(
    metadata: Option<SetupMetadata>,
    provider_dll_exists: bool,
    program_data_exists: bool,
    remove_data: bool,
    remove_created_account: bool,
)
    ensures
        ({
            let steps = uninstall_steps(
                metadata,
                provider_dll_exists,
                program_data_exists,
                remove_data,
                remove_created_account,
            );
            &&& steps.contains(UninstallStep::StopAndDeleteService)
            &&& steps.contains(UninstallStep::UnregisterEventLogSource)
            &&& steps.contains(UninstallStep::UnregisterProvider) == provider_dll_exists
            &&& steps.contains(UninstallStep::UnhideManagedAccount) == (metadata is Some
                && metadata->0.managed_account_created_by_otpuac)
            &&& steps.contains(UninstallStep::DeleteManagedAccount) == (metadata is Some
                && metadata->0.managed_account_created_by_otpuac && remove_created_account)
            &&& steps.contains(UninstallStep::RemoveDataDir) == (remove_data && program_data_exists
                && metadata is Some && metadata->0.version == SETUP_METADATA_VERSION
                && metadata->0.install_kind@ == MANAGED_INSTALL_KIND@ && metadata->0.service_name@
                == SERVICE_NAME@)
        }),
{
    let steps = uninstall_steps(
        metadata,
        provider_dll_exists,
        program_data_exists,
        remove_data,
        remove_created_account,
    );
    assert(steps[0] == UninstallStep::StopAndDeleteService);
    assert(steps[1] == UninstallStep::UnregisterEventLogSource);
    let p: Seq<UninstallStep> = if provider_dll_exists {
        seq![UninstallStep::UnregisterProvider]
    } else {
        Seq::empty()
    };
    let a: Seq<UninstallStep> = if created_account(metadata) {
        seq![UninstallStep::UnhideManagedAccount] + if remove_created_account {
            seq![UninstallStep::DeleteManagedAccount]
        } else {
            Seq::empty()
        }
    } else {
        Seq::empty()
    };
    let d: Seq<UninstallStep> = if remove_data && data_removal_allowed(metadata)
        && program_data_exists {
        seq![UninstallStep::RemoveDataDir]
    } else {
        Seq::empty()
    };
    let head = seq![UninstallStep::StopAndDeleteService, UninstallStep::UnregisterEventLogSource];
    assert(steps =~= head + p + a + d);
    assert forall|x: UninstallStep| steps.contains(x) <==> (head.contains(x) || p.contains(x)
        || a.contains(x) || d.contains(x)) by {
        if steps.contains(x) {
            let i = choose|i: int| 0 <= i < steps.len() && steps[i] == x;
            if i < 2 {
                assert(head[i] == x);
            } else if i < 2 + p.len() {
                assert(p[i - 2] == x);
            } else if i < 2 + p.len() + a.len() {
                assert(a[i - 2 - p.len()] == x);
            } else {
                assert(d[i - 2 - p.len() - a.len()] == x);
            }
        }
        if head.contains(x) {
            let i = choose|i: int| 0 <= i < head.len() && head[i] == x;
            assert(steps[i] == x);
        }
        if p.contains(x) {
            let i = choose|i: int| 0 <= i < p.len() && p[i] == x;
            assert(steps[2 + i] == x);
        }
        if a.contains(x) {
            let i = choose|i: int| 0 <= i < a.len() && a[i] == x;
            assert(steps[2 + p.len() + i] == x);
        }
        if d.contains(x) {
            let i = choose|i: int| 0 <= i < d.len() && d[i] == x;
            assert(steps[2 + p.len() + a.len() + i] == x);
        }
    }
    if remove_created_account && created_account(metadata) {
        assert(a[1] == UninstallStep::DeleteManagedAccount);
    }
    if created_account(metadata) {
        assert(a[0] == UninstallStep::UnhideManagedAccount);
    }
    if provider_dll_exists {
        assert(p[0] == UninstallStep::UnregisterProvider);
    }
    if remove_data && data_removal_allowed(metadata) && program_data_exists {
        assert(d[0] == UninstallStep::RemoveDataDir);
    }
}

} // verus!
