//! Plain request-side models shared across the engine: lifecycle actions and
//! their service-side counterparts, workload update knobs, and the small
//! normalisation helpers for user-supplied paths and git URLs.
use base64::Engine;
use vstd::prelude::*;

verus! {

use vstd::string::StringExecFns;
use vstd::string::StrSliceExecFns;
use crate::strutil::push_char;

/// How a workload's pods are replaced on update.
#[derive(Clone, Copy, Eq, PartialEq, Hash, Debug, Default)]
pub enum UpdateStrategy {
    #[default]
    RollingUpdate,
    Recreate,
}

/// Whether pods of one service avoid sharing a node by preference or by
/// requirement.
#[derive(Clone, Copy, Eq, PartialEq, Hash, Debug, Default)]
pub enum PodAntiAffinity {
    #[default]
    Preferred,
    Required,
}

/// The error of parsing a platform identifier.
#[derive(Clone, Debug, PartialEq, Eq)]
pub enum QoveryIdentifierError {
    ParsingError { raw_error_message: String },
}

/// A lifecycle action requested of a service.
#[derive(Clone, Copy, Eq, PartialEq, Hash, Debug)]
pub enum Action {
    Create,
    Pause,
    Delete,
    Restart,
}

/// The same actions on the service side of the engine.
#[derive(Clone, Copy, Eq, PartialEq, Hash, Debug)]
pub enum ServiceAction {
    Create,
    Pause,
    Delete,
    Restart,
}

impl Action {
    /// The service-side counterpart of this action.
    pub fn to_service_action(&self) -> (r: ServiceAction)
        ensures
            r == (match self {
                Action::Create => ServiceAction::Create,
                Action::Pause => ServiceAction::Pause,
                Action::Delete => ServiceAction::Delete,
                Action::Restart => ServiceAction::Restart,
            }),
    {
        match self {
            Action::Create => ServiceAction::Create,
            Action::Pause => ServiceAction::Pause,
            Action::Delete => ServiceAction::Delete,
            Action::Restart => ServiceAction::Restart,
        }
    }
}

/// A raw nginx server-configuration snippet carried through to the ingress.
#[derive(Clone)]
pub struct NginxConfigurationServerSnippet(String);

impl View for NginxConfigurationServerSnippet {
    type V = Seq<char>;

    closed spec fn view(&self) -> Seq<char> {
        self.0@
    }
}

impl NginxConfigurationServerSnippet {
    pub fn new(snippet: String) -> (r: NginxConfigurationServerSnippet)
        ensures
            r@ == snippet@,
    {
        NginxConfigurationServerSnippet(snippet)
    }

    pub fn get_snippet_value(&self) -> (r: &str)
        ensures
            r@ == self@,
    {
        self.0.as_str()
    }
}

/// Request rate limiting of an exposed route.
pub enum RateLimiting {
    Enabled { max_requests_per_minute: u32, burst_multiplier: u32 },
    Disabled,
}

/// The text with its leading path separators removed.
pub open spec fn spec_strip_leading_slashes(s: Seq<char>) -> Seq<char>
    decreases s.len(),
{
    if s.len() > 0 && s[0] == '/' {
        spec_strip_leading_slashes(s.skip(1))
    } else {
        s
    }
}

/// A relative join: the parts with one separator between them; an empty left
/// part yields the right part alone.
pub open spec fn spec_path_join(a: Seq<char>, b: Seq<char>) -> Seq<char> {
    if a.len() == 0 {
        b
    } else {
        a + "/"@ + b
    }
}

proof fn lemma_strip_prefix(s: Seq<char>, i: int)
    requires
        0 <= i <= s.len(),
        forall|k: int| 0 <= k < i ==> s[k] == '/',
    ensures
        spec_strip_leading_slashes(s) == spec_strip_leading_slashes(s.skip(i)),
    decreases i,
{
    if i > 0 {
        assert(s[0] == '/');
        assert(s.skip(1).skip(i - 1) =~= s.skip(i));
        assert(forall|k: int| 0 <= k < i - 1 ==> s.skip(1)[k] == '/');
        lemma_strip_prefix(s.skip(1), i - 1);
    } else {
        assert(s.skip(0) =~= s);
    }
}

fn strip_leading_slashes(s: &str) -> (r: String)
    ensures
        r@ == spec_strip_leading_slashes(s@),
{
    let len = s.unicode_len();
    let mut i: usize = 0;
    while i < len && s.get_char(i) == '/'
        invariant
            len == s@.len(),
            0 <= i <= len,
            forall|k: int| 0 <= k < i ==> s@[k] == '/',
        decreases len - i,
    {
        i = i + 1;
    }
    proof {
        lemma_strip_prefix(s@, i as int);
        if i < s@.len() {
            assert(s@.skip(i as int)[0] == s@[i as int]);
        }
        assert(spec_strip_leading_slashes(s@.skip(i as int)) == s@.skip(i as int));
        assert(s@.subrange(i as int, s@.len() as int) =~= s@.skip(i as int));
    }
    s.substring_char(i, len).to_owned()
}

/// Normalises a user-supplied root path to a relative one — leading
/// separators are stripped — and resolves the optional dockerfile path
/// against it, stripping its own leading separators first, so that the two
/// can be appended to a workspace safely.
pub fn normalize_root_and_dockerfile_path(root_path: &str, dockerfile_path: &Option<String>) -> (r: (
    String,
    Option<String>,
))
    ensures
        r.0@ == spec_strip_leading_slashes(root_path@),
        (match dockerfile_path {
            Some(p) => r.1 matches Some(q) && q@ == spec_path_join(
                spec_strip_leading_slashes(root_path@),
                spec_strip_leading_slashes(p@),
            ),
            None => r.1 is None,
        }),
{
    let root = strip_leading_slashes(root_path);
    let dockerfile = match dockerfile_path {
        Some(p) => {
            let tail = strip_leading_slashes(p.as_str());
            if root.as_str().is_empty() {
                Some(tail)
            } else {
                Some(root.clone().concat("/").concat(tail.as_str()))
            }
        },
        None => None,
    };
    (root, dockerfile)
}

/// The sanitised form of one URL character: ASCII letters are folded to
/// lower case, digits stand as they are, everything else becomes a dash.
pub open spec fn spec_sanitized_char(c: char) -> char {
    let lower = if 65 <= c as u32 <= 90 {
        ((c as u32 + 32) as u8) as char
    } else {
        c
    };
    if (97 <= lower as u32 <= 122) || (48 <= lower as u32 <= 57) {
        lower
    } else {
        '-'
    }
}

pub open spec fn spec_sanitized_chars(s: Seq<char>) -> Seq<char> {
    s.map_values(|c: char| spec_sanitized_char(c))
}

/// The text with every run of dashes shortened to one dash.
pub open spec fn spec_collapse_dashes(s: Seq<char>) -> Seq<char>
    decreases s.len(),
{
    if s.len() == 0 {
        Seq::empty()
    } else if s.last() == '-' && s.len() >= 2 && s[s.len() - 2] == '-' {
        spec_collapse_dashes(s.drop_last())
    } else {
        spec_collapse_dashes(s.drop_last()).push(s.last())
    }
}

fn sanitized_char(c: char) -> (r: char)
    ensures
        r == spec_sanitized_char(c),
{
    let v = c as u32;
    let lower = if 65 <= v && v <= 90 {
        ((v + 32) as u8) as char
    } else {
        c
    };
    let lv = lower as u32;
    if (97 <= lv && lv <= 122) || (48 <= lv && lv <= 57) {
        lower
    } else {
        '-'
    }
}

/// Sanitises a git URL into a label-safe name: characters are folded to
/// lower case, every non-alphanumeric character becomes a dash, and runs of
/// dashes collapse to one.
pub fn sanitized_git_url(git_url: &str) -> (r: String)
    ensures
        r@ == spec_collapse_dashes(spec_sanitized_chars(git_url@)),
{
    let ghost mapped = spec_sanitized_chars(git_url@);
    let len = git_url.unicode_len();
    let mut out = String::new();
    let mut prev_dash = false;
    let mut i: usize = 0;
    proof {
        assert(mapped.take(0) =~= Seq::empty());
    }
    while i < len
        invariant
            len == git_url@.len(),
            mapped == spec_sanitized_chars(git_url@),
            mapped.len() == git_url@.len(),
            0 <= i <= len,
            out@ == spec_collapse_dashes(mapped.take(i as int)),
            prev_dash == (i > 0 && mapped[i as int - 1] == '-'),
        decreases len - i,
    {
        let c = sanitized_char(git_url.get_char(i));
        proof {
            assert(mapped[i as int] == spec_sanitized_char(git_url@[i as int]));
            assert(mapped.take(i + 1int).drop_last() =~= mapped.take(i as int));
            assert(mapped.take(i + 1int).last() == mapped[i as int]);
        }
        if c == '-' && prev_dash {
        } else {
            push_char(&mut out, c);
        }
        prev_dash = c == '-';
        i = i + 1;
    }
    proof {
        assert(mapped.take(mapped.len() as int) =~= mapped);
    }
    out
}

/// The value of one environment variable together with its secrecy.
#[derive(Debug, Clone, PartialEq, Eq)]
pub struct VariableInfo {
    pub value: String,
    pub is_secret: bool,
}

/// One SSH key assembled from the environment: the private key, and a
/// passphrase and public key where the matching variables decode.
#[derive(Debug, Clone, PartialEq, Eq)]
pub struct SshKey {
    pub private_key: String,
    pub passphrase: Option<String>,
    pub public_key: Option<String>,
}

pub struct SshKeyView {
    pub private_key: Seq<char>,
    pub passphrase: Option<Seq<char>>,
    pub public_key: Option<Seq<char>>,
}

impl View for SshKey {
    type V = SshKeyView;

    open spec fn view(&self) -> SshKeyView {
        SshKeyView {
            private_key: self.private_key@,
            passphrase: match self.passphrase {
                Some(p) => Some(p@),
                None => None,
            },
            public_key: match self.public_key {
                Some(p) => Some(p@),
                None => None,
            },
        }
    }
}

/// What decoding standard base64 and reading the bytes as text returns, a
/// function of the text alone; nothing where the input is not valid base64
/// of valid text.
pub uninterp spec fn spec_base64_utf8(s: Seq<char>) -> Option<Seq<char>>;

/// Relies on base64's standard-alphabet decoder and on String::from_utf8:
/// the decoded text of a base64-encoded value.
#[verifier::external_body]
fn decode_base64_utf8(s: &str) -> (r: Option<String>)
    ensures
        r is Some <==> spec_base64_utf8(s@) is Some,
        r matches Some(text) ==> Some(text@) == spec_base64_utf8(s@),
{
    match base64::engine::general_purpose::STANDARD.decode(s) {
        Ok(bytes) => String::from_utf8(bytes).ok(),
        Err(_) => None,
    }
}

pub open spec fn spec_starts_with(s: Seq<char>, prefix: Seq<char>) -> bool {
    prefix.len() <= s.len() && s.take(prefix.len() as int) == prefix
}

fn starts_with_chars(s: &str, prefix: &str) -> (r: bool)
    ensures
        r == spec_starts_with(s@, prefix@),
{
    let prefix_len = prefix.unicode_len();
    let s_len = s.unicode_len();
    if prefix_len > s_len {
        return false;
    }
    let mut i: usize = 0;
    while i < prefix_len
        invariant
            prefix_len == prefix@.len(),
            s_len == s@.len(),
            prefix_len <= s_len,
            0 <= i <= prefix_len,
            forall|k: int| 0 <= k < i ==> s@[k] == prefix@[k],
        decreases prefix_len - i,
    {
        if s.get_char(i) != prefix.get_char(i) {
            proof {
                assert(s@.take(prefix@.len() as int)[i as int] == s@[i as int]);
            }
            return false;
        }
        i = i + 1;
    }
    proof {
        assert(s@.take(prefix@.len() as int) =~= prefix@);
    }
    true
}

pub open spec fn spec_env_pairs(env: Seq<(String, VariableInfo)>) -> Seq<(Seq<char>, Seq<char>)> {
    env.map_values(|e: (String, VariableInfo)| (e.0@, e.1.value@))
}

/// The first value listed under a name, if any.
pub open spec fn spec_env_lookup(env: Seq<(Seq<char>, Seq<char>)>, name: Seq<char>) -> Option<Seq<char>>
    decreases env.len(),
{
    if env.len() == 0 {
        None
    } else if env[0].0 == name {
        Some(env[0].1)
    } else {
        spec_env_lookup(env.skip(1), name)
    }
}

/// The companion variable's name: the key prefix swapped for the given one.
pub open spec fn spec_companion_key(name: Seq<char>, replacement: Seq<char>) -> Seq<char> {
    replacement + name.skip("GIT_SSH_KEY"@.len() as int)
}

pub open spec fn spec_decoded_companion(
    env: Seq<(Seq<char>, Seq<char>)>,
    name: Seq<char>,
    replacement: Seq<char>,
) -> Option<Seq<char>> {
    match spec_env_lookup(env, spec_companion_key(name, replacement)) {
        Some(encoded) => spec_base64_utf8(encoded),
        None => None,
    }
}

/// The SSH keys read from the first `n` environment entries, with companion
/// lookups over the whole environment: each variable whose name starts with
/// the key prefix and whose value decodes yields one key; one that does not
/// decode is skipped.
pub open spec fn spec_ssh_keys_upto(env: Seq<(Seq<char>, Seq<char>)>, n: int) -> Seq<SshKeyView>
    decreases n,
{
    if n <= 0 {
        Seq::empty()
    } else {
        let prefix_keys = spec_ssh_keys_upto(env, n - 1);
        let name = env[n - 1].0;
        let value = env[n - 1].1;
        if spec_starts_with(name, "GIT_SSH_KEY"@) {
            match spec_base64_utf8(value) {
                Some(private_key) => prefix_keys.push(
                    SshKeyView {
                        private_key,
                        passphrase: spec_decoded_companion(env, name, "GIT_SSH_PASSPHRASE"@),
                        public_key: spec_decoded_companion(env, name, "GIT_SSH_PUBLIC_KEY"@),
                    },
                ),
                None => prefix_keys,
            }
        } else {
            prefix_keys
        }
    }
}

pub open spec fn spec_ssh_key_views(keys: Seq<SshKey>) -> Seq<SshKeyView> {
    keys.map_values(|k: SshKey| k@)
}

proof fn lemma_env_lookup_skip(env: Seq<(Seq<char>, Seq<char>)>, name: Seq<char>, i: int)
    requires
        0 <= i < env.len(),
        env[i].0 != name,
    ensures
        spec_env_lookup(env.skip(i), name) == spec_env_lookup(env.skip(i + 1), name),
{
    assert(env.skip(i)[0] == env[i]);
    assert(env.skip(i).skip(1) =~= env.skip(i + 1));
}

fn env_lookup<'a>(env: &'a Vec<(String, VariableInfo)>, name: &str) -> (r: Option<&'a String>)
    ensures
        (match r {
            Some(value) => spec_env_lookup(spec_env_pairs(env@), name@) == Some(value@),
            None => spec_env_lookup(spec_env_pairs(env@), name@) is None,
        }),
{
    let ghost pairs = spec_env_pairs(env@);
    let mut i: usize = 0;
    assert(pairs.skip(0) =~= pairs);
    while i < env.len()
        invariant
            pairs == spec_env_pairs(env@),
            pairs.len() == env@.len(),
            0 <= i <= env@.len(),
            spec_env_lookup(pairs, name@) == spec_env_lookup(pairs.skip(i as int), name@),
        decreases env@.len() - i,
    {
        assert(pairs.skip(i as int)[0] == pairs[i as int]);
        if crate::strutil::str_eq(env[i].0.as_str(), name) {
            return Some(&env[i].1.value);
        }
        proof {
            lemma_env_lookup_skip(pairs, name@, i as int);
        }
        i = i + 1;
    }
    assert(pairs.skip(i as int) =~= Seq::empty());
    None
}

fn decoded_companion(env: &Vec<(String, VariableInfo)>, name: &str, replacement: &str) -> (r: Option<String>)
    requires
        spec_starts_with(name@, "GIT_SSH_KEY"@),
    ensures
        (match r {
            Some(text) => spec_decoded_companion(spec_env_pairs(env@), name@, replacement@) == Some(
                text@,
            ),
            None => spec_decoded_companion(spec_env_pairs(env@), name@, replacement@) is None,
        }),
{
    proof {
        reveal_strlit("GIT_SSH_KEY");
    }
    let name_len = name.unicode_len();
    let companion = replacement.to_owned().concat(name.substring_char(11, name_len));
    proof {
        assert(name@.subrange(11, name@.len() as int) =~= name@.skip("GIT_SSH_KEY"@.len() as int));
    }
    match env_lookup(env, companion.as_str()) {
        Some(encoded) => decode_base64_utf8(encoded.as_str()),
        None => None,
    }
}

/// Assembles the SSH keys carried by the environment: every variable whose
/// name starts with the key prefix holds a base64-encoded private key — one
/// that does not decode is skipped — and its companion passphrase and
/// public-key variables, named by swapping the prefix, are decoded where
/// they exist.
pub fn ssh_keys_from_env_vars(environment_vars: &Vec<(String, VariableInfo)>) -> (r: Vec<SshKey>)
    ensures
        spec_ssh_key_views(r@) == spec_ssh_keys_upto(
            spec_env_pairs(environment_vars@),
            environment_vars@.len() as int,
        ),
{
    let ghost pairs = spec_env_pairs(environment_vars@);
    let mut ssh_keys: Vec<SshKey> = Vec::new();
    proof {
        assert(spec_ssh_key_views(ssh_keys@) =~= Seq::empty());
    }
    let env_len = environment_vars.len();
    for i in 0..env_len
        invariant
            env_len == environment_vars@.len(),
            pairs == spec_env_pairs(environment_vars@),
            pairs.len() == environment_vars@.len(),
            spec_ssh_key_views(ssh_keys@) == spec_ssh_keys_upto(pairs, i as int),
    {
        proof {
            assert(pairs[i as int] == (environment_vars@[i as int].0@, environment_vars@[i as int].1.value@));
        }
        let name = &environment_vars[i].0;
        if starts_with_chars(name.as_str(), "GIT_SSH_KEY") {
            match decode_base64_utf8(environment_vars[i].1.value.as_str()) {
                Some(private_key) => {
                    let passphrase = decoded_companion(environment_vars, name.as_str(), "GIT_SSH_PASSPHRASE");
                    let public_key = decoded_companion(environment_vars, name.as_str(), "GIT_SSH_PUBLIC_KEY");
                    let key = SshKey { private_key, passphrase, public_key };
                    let ghost key_view = key@;
                    ssh_keys.push(key);
                    proof {
                        assert(spec_ssh_key_views(ssh_keys@) =~= spec_ssh_key_views(
                            ssh_keys@.drop_last(),
                        ).push(key_view));
                    }
                },
                None => {},
            }
        }
    }
    ssh_keys
}

} // verus!
