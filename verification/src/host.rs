//! Which client processes may ask the service for a credential.

use crate::paths::{is_joined, is_plain_component, is_verbatim, join_path, needs_separator};
use crate::error::OtpuacError;
use crate::text::{chars_of, push_char, push_str, string_of};
use vstd::prelude::*;
use vstd::string::*;

verus! {

/// The system directory assumed when the system cannot name its own.
pub const DEFAULT_SYSTEM32: &'static str = "C:\\Windows\\System32";

/// The UAC consent prompt.
pub const CONSENT_EXE: &'static str = "consent.exe";

/// The logon screen.
pub const LOGON_UI_EXE: &'static str = "LogonUI.exe";

/// The broker behind `CredUIPromptForWindowsCredentials`.
pub const CREDENTIAL_UI_BROKER_EXE: &'static str = "CredentialUIBroker.exe";

/// `s` with every leading `\\?\` (verbatim path prefix) removed.
pub open spec fn strip_verbatim(s: Seq<char>) -> Seq<char>
    decreases s.len(),
{
    if s.len() >= 4 && s[0] == '\\' && s[1] == '\\' && s[2] == '?' && s[3] == '\\' {
        strip_verbatim(s.subrange(4, s.len() as int))
    } else {
        s
    }
}

/// One character of a compared path: `/` becomes `\`, ASCII capitals become
/// small letters, everything else stays.
pub open spec fn fold_path_char(c: char) -> char {
    if c == '/' {
        '\\'
    } else if 'A' <= c <= 'Z' {
        (((c as u32) + 32) as u32) as char
    } else {
        c
    }
}

/// The form in which two Windows paths are compared.
pub open spec fn normalized_path(s: Seq<char>) -> Seq<char> {
    strip_verbatim(s).map_values(|c: char| fold_path_char(c))
}

fn fold_char(c: char) -> (r: char)
    ensures
        r == fold_path_char(c),
{
    if c == '/' {
        '\\'
    } else if 'A' <= c && c <= 'Z' {
        let b: u8 = (c as u32 + 32) as u8;
        b as char
    } else {
        c
    }
}

/// A path with its verbatim prefixes removed, forward slashes turned into
/// backslashes and ASCII letters folded to lower case.
pub fn normalize_windows_path(path: &str) -> (r: String)
    ensures
        r@ == normalized_path(path@),
{
    let cs = chars_of(path);
    let n = cs.len();
    let mut start: usize = 0;
    assert(cs@.subrange(0, n as int) =~= cs@);
    while n - start >= 4 && cs[start] == '\\' && cs[start + 1] == '\\' && cs[start + 2] == '?'
        && cs[start + 3] == '\\'
        invariant
            start <= n == cs@.len(),
            cs@ == path@,
            strip_verbatim(cs@.subrange(start as int, n as int)) == strip_verbatim(path@),
        decreases n - start,
    {
        let ghost rest = cs@.subrange(start as int, n as int);
        assert(rest.subrange(4, rest.len() as int) == cs@.subrange(start + 4, n as int));
        start = start + 4;
    }
    let ghost stripped = cs@.subrange(start as int, n as int);
    assert(strip_verbatim(stripped) == stripped);
    let mut r = String::new();
    let mut k: usize = start;
    while k < n
        invariant
            start <= k <= n == cs@.len(),
            stripped == cs@.subrange(start as int, n as int),
            stripped == strip_verbatim(path@),
            r@ == stripped.subrange(0, k - start).map_values(|c: char| fold_path_char(c)),
        decreases n - k,
    {
        push_char(&mut r, fold_char(cs[k]));
        assert(stripped.subrange(0, k + 1 - start) == stripped.subrange(0, k - start).push(
            cs@[k as int],
        ));
        k = k + 1;
    }
    assert(stripped.subrange(0, n - start) == stripped);
    r
}

/// The file names of the processes that host the credential prompt.
pub open spec fn is_credential_ui_exe(exe: Seq<char>) -> bool {
    exe == CONSENT_EXE@ || exe == LOGON_UI_EXE@ || exe == CREDENTIAL_UI_BROKER_EXE@
}

/// `image` names one of the prompt hosts inside `system32`, once both are
/// normalized, with `system32` and the file name joined by a backslash.
pub open spec fn is_credential_ui_host_path(image: Seq<char>, system32: Seq<char>) -> bool {
    exists|exe: Seq<char>|
        is_credential_ui_exe(exe) && #[trigger] normalized_path(system32 + "\\"@ + exe)
            == normalized_path(image)
}

proof fn lemma_host_names()
    ensures
        is_plain_component(CONSENT_EXE@),
        is_plain_component(LOGON_UI_EXE@),
        is_plain_component(CREDENTIAL_UI_BROKER_EXE@),
        CONSENT_EXE@.len() > 0 && CONSENT_EXE@[0] != '?',
        LOGON_UI_EXE@.len() > 0 && LOGON_UI_EXE@[0] != '?',
        CREDENTIAL_UI_BROKER_EXE@.len() > 0 && CREDENTIAL_UI_BROKER_EXE@[0] != '?',
{
    reveal_strlit("consent.exe");
    reveal_strlit("LogonUI.exe");
    reveal_strlit("CredentialUIBroker.exe");
}

/// Joining with either separator gives the same normalized path, when the
/// directory holds no `?` and the name does not start with one.
proof fn lemma_separator_folds(base: Seq<char>, name: Seq<char>, joined: Seq<char>)
    requires
        needs_separator(base),
        !base.contains('?'),
        name.len() > 0 && name[0] != '?',
        is_joined(base, name, joined),
        joined != base + name,
    ensures
        normalized_path(joined) == normalized_path(base + "\\"@ + name),
{
    reveal_strlit("\\");
    reveal_strlit("/");
    let back = base + "\\"@ + name;
    assert(joined.len() == back.len());
    assert(joined.len() >= 2);
    if base.len() >= 3 {
        assert(joined[2] == base[2]);
        assert(back[2] == base[2]);
        assert(base[2] != '?');
    } else if base.len() == 2 {
        assert(joined[2] != '?');
        assert(back[2] == '\\');
    } else {
        assert(joined[2] == name[0]);
        assert(back[2] == name[0]);
    }
    assert(strip_verbatim(joined) == joined);
    assert(strip_verbatim(back) == back);
    assert(normalized_path(joined) =~= normalized_path(back));
}

fn matches_host(image: &String, system32: &str, exe: &str) -> (r: bool)
    requires
        is_plain_component(exe@),
    ensures
        !is_verbatim(system32@) ==> exists|joined: Seq<char>|
            is_joined(system32@, exe@, joined) && (r == (normalized_path(image@) == normalized_path(
                joined,
            ))),
{
    let joined = join_path(system32, exe);
    let a = normalize_windows_path(image.as_str());
    let b = normalize_windows_path(joined.as_str());
    crate::text::str_eq(a.as_str(), b.as_str())
}

/// The system directory: the one the system names, or the default.
pub open spec fn system_dir(system32: Option<&str>) -> Seq<char> {
    match system32 {
        Some(p) => p@,
        None => DEFAULT_SYSTEM32@,
    }
}

/// Whether the process image `image` is one of the credential prompt hosts in
/// the system directory (`system32`, or `C:\Windows\System32` when the system
/// does not name one). Paths compare after `normalize_windows_path`; the host
/// path is the system directory joined with the host's file name.
pub fn is_allowed_credential_ui_host(image: &str, system32: Option<&str>) -> (r: bool)
    ensures
        !is_verbatim(system_dir(system32)) ==> (r ==> exists|exe: Seq<char>, joined: Seq<char>|
            is_credential_ui_exe(exe) && is_joined(system_dir(system32), exe, joined)
                && normalized_path(image@) == normalized_path(joined)),
        !is_verbatim(system_dir(system32)) ==> (!r ==> forall|exe: Seq<char>|
            #[trigger] is_credential_ui_exe(exe) ==> exists|joined: Seq<char>|
                is_joined(system_dir(system32), exe, joined) && normalized_path(image@)
                    != normalized_path(joined)),
        (needs_separator(system_dir(system32)) && !system_dir(system32).contains('?')) ==> (r
            <==> is_credential_ui_host_path(image@, system_dir(system32))),
{
    let dir = match system32 {
        Some(p) => p,
        None => DEFAULT_SYSTEM32,
    };
    assert(dir@ == system_dir(system32));
    let image_text = crate::text::string_of(image);
    proof {
        lemma_host_names();
    }
    let a = matches_host(&image_text, dir, CONSENT_EXE);
    let b = matches_host(&image_text, dir, LOGON_UI_EXE);
    let c = matches_host(&image_text, dir, CREDENTIAL_UI_BROKER_EXE);
    proof {
        if !is_verbatim(dir@) {
            let ja = choose|j: Seq<char>|
                is_joined(dir@, CONSENT_EXE@, j) && (a == (normalized_path(image@)
                    == normalized_path(j)));
            let jb = choose|j: Seq<char>|
                is_joined(dir@, LOGON_UI_EXE@, j) && (b == (normalized_path(image@)
                    == normalized_path(j)));
            let jc = choose|j: Seq<char>|
                is_joined(dir@, CREDENTIAL_UI_BROKER_EXE@, j) && (c == (normalized_path(image@)
                    == normalized_path(j)));
            if a {
                assert(is_credential_ui_exe(CONSENT_EXE@));
            }
            if b {
                assert(is_credential_ui_exe(LOGON_UI_EXE@));
            }
            if c {
                assert(is_credential_ui_exe(CREDENTIAL_UI_BROKER_EXE@));
            }
            if !(a || b || c) {
                assert forall|exe: Seq<char>| #[trigger] is_credential_ui_exe(exe) implies exists|
                    joined: Seq<char>,
                |
                    is_joined(dir@, exe, joined) && normalized_path(image@) != normalized_path(
                        joined,
                    ) by {
                    if exe == CONSENT_EXE@ {
                        assert(is_joined(dir@, exe, ja));
                    } else if exe == LOGON_UI_EXE@ {
                        assert(is_joined(dir@, exe, jb));
                    } else {
                        assert(is_joined(dir@, exe, jc));
                    }
                }
            }
            if needs_separator(dir@) && !dir@.contains('?') {
                lemma_separator_folds(dir@, CONSENT_EXE@, ja);
                lemma_separator_folds(dir@, LOGON_UI_EXE@, jb);
                lemma_separator_folds(dir@, CREDENTIAL_UI_BROKER_EXE@, jc);
                if is_credential_ui_host_path(image@, dir@) {
                    let exe = choose|exe: Seq<char>|
                        is_credential_ui_exe(exe) && #[trigger] normalized_path(
                            dir@ + "\\"@ + exe,
                        ) == normalized_path(image@);
                    assert(a || b || c);
                }
                if a {
                    assert(normalized_path(dir@ + "\\"@ + CONSENT_EXE@) == normalized_path(
                        image@,
                    ));
                }
                if b {
                    assert(normalized_path(dir@ + "\\"@ + LOGON_UI_EXE@) == normalized_path(
                        image@,
                    ));
                }
                if c {
                    assert(normalized_path(dir@ + "\\"@ + CREDENTIAL_UI_BROKER_EXE@)
                        == normalized_path(image@));
                }
            }
        } else {
            assert(dir@[2] == '?');
            assert(dir@.contains('?'));
        }
    }
    a || b || c
}

/// Which clients the service serves: only the credential prompt hosts, or,
/// in development builds, any client.
#[derive(Clone, Copy, Debug, PartialEq, Eq)]
pub enum ClientPolicy {
    AllowAny,
    CredentialUiHostsOnly,
}

/// The decision on a connected client whose process image is `image`: under
/// `CredentialUiHostsOnly` a client other than a credential prompt host (see
/// `is_allowed_credential_ui_host`) is refused with its image in the message.
pub fn validate_client(policy: ClientPolicy, image: &str, system32: Option<&str>) -> (r: Result<
    (),
    OtpuacError,
>)
    ensures
        policy == ClientPolicy::AllowAny ==> r is Ok,
        policy == ClientPolicy::CredentialUiHostsOnly ==> {
            &&& r is Err ==> (r matches Err(OtpuacError::InvalidIpc(m)) && m@
                == "unauthorized named-pipe client process: "@ + image@)
            &&& !is_verbatim(system_dir(system32)) ==> (r is Ok ==> exists|
                exe: Seq<char>,
                joined: Seq<char>,
            |
                is_credential_ui_exe(exe) && is_joined(system_dir(system32), exe, joined)
                    && normalized_path(image@) == normalized_path(joined))
            &&& !is_verbatim(system_dir(system32)) ==> (r is Err ==> forall|exe: Seq<char>|
                #[trigger] is_credential_ui_exe(exe) ==> exists|joined: Seq<char>|
                    is_joined(system_dir(system32), exe, joined) && normalized_path(image@)
                        != normalized_path(joined))
            &&& (needs_separator(system_dir(system32)) && !system_dir(system32).contains('?')) ==> (
            r is Ok <==> is_credential_ui_host_path(image@, system_dir(system32)))
        },
{
    match policy {
        ClientPolicy::AllowAny => Ok(()),
        ClientPolicy::CredentialUiHostsOnly => {
            if is_allowed_credential_ui_host(image, system32) {
                Ok(())
            } else {
                let mut m = string_of("unauthorized named-pipe client process: ");
                push_str(&mut m, image);
                Err(OtpuacError::InvalidIpc(m))
            }
        },
    }
}

} // verus!
