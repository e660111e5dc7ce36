//! The Scaleway database instance-type catalog: each type's provider-side
//! name, whether it may be picked, which engines it can host, and the parser
//! of a user-supplied type name.
use vstd::prelude::*;

verus! {

use vstd::string::StrSliceExecFns;
use crate::database::{DatabaseError, DatabaseInstanceType};
use crate::service::{DatabaseType, Kind};
use crate::strutil::{eq_ignore_ascii_case, spec_eq_ignore_ascii_case};

/// The database instance types Scaleway sells.
#[allow(non_camel_case_types)]
#[derive(Debug, Clone, PartialEq, Eq)]
pub enum ScwDatabaseInstanceType {
    DB_DEV_S,
    DB_DEV_M,
    DB_GP_XS,
    DB_GP_S,
    DB_GP_M,
    RED1_MICRO,
}

/// The provider-side name of each instance type.
pub open spec fn spec_scw_format(t: ScwDatabaseInstanceType) -> Seq<char> {
    match t {
        ScwDatabaseInstanceType::DB_DEV_S => "db-dev-s"@,
        ScwDatabaseInstanceType::DB_DEV_M => "db-dev-m"@,
        ScwDatabaseInstanceType::DB_GP_XS => "db-gp-xs"@,
        ScwDatabaseInstanceType::DB_GP_S => "db-gp-s"@,
        ScwDatabaseInstanceType::DB_GP_M => "db-gp-m"@,
        ScwDatabaseInstanceType::RED1_MICRO => "red1-micro"@,
    }
}

/// Which engines each instance type can host: the cache line hosts Redis
/// alone, the database lines host everything but Redis.
pub open spec fn spec_scw_compatible(t: ScwDatabaseInstanceType, database_type: DatabaseType) -> bool {
    match t {
        ScwDatabaseInstanceType::RED1_MICRO => database_type is Redis,
        _ => !(database_type is Redis),
    }
}

/// A character the instance-type parser treats as trimmable whitespace.
pub open spec fn spec_is_trim_space(c: char) -> bool {
    c == ' ' || c == '\t' || c == '\n' || c == '\r'
}

/// The text with leading and trailing whitespace removed.
pub open spec fn spec_trimmed(s: Seq<char>) -> Seq<char>
    decreases s.len(),
{
    if s.len() > 0 && spec_is_trim_space(s[0]) {
        spec_trimmed(s.skip(1))
    } else if s.len() > 0 && spec_is_trim_space(s.last()) {
        spec_trimmed(s.drop_last())
    } else {
        s
    }
}

/// Which instance type a trimmed name denotes, compared without regard to
/// ASCII case; an unknown name denotes none.
pub open spec fn spec_scw_parse(trimmed: Seq<char>) -> Option<ScwDatabaseInstanceType> {
    if spec_eq_ignore_ascii_case(trimmed, "db-dev-s"@) {
        Some(ScwDatabaseInstanceType::DB_DEV_S)
    } else if spec_eq_ignore_ascii_case(trimmed, "db-dev-m"@) {
        Some(ScwDatabaseInstanceType::DB_DEV_M)
    } else if spec_eq_ignore_ascii_case(trimmed, "db-gp-xs"@) {
        Some(ScwDatabaseInstanceType::DB_GP_XS)
    } else if spec_eq_ignore_ascii_case(trimmed, "db-gp-s"@) {
        Some(ScwDatabaseInstanceType::DB_GP_S)
    } else if spec_eq_ignore_ascii_case(trimmed, "db-gp-m"@) {
        Some(ScwDatabaseInstanceType::DB_GP_M)
    } else if spec_eq_ignore_ascii_case(trimmed, "red1-micro"@) {
        Some(ScwDatabaseInstanceType::RED1_MICRO)
    } else {
        None
    }
}

fn is_trim_space(c: char) -> (r: bool)
    ensures
        r == spec_is_trim_space(c),
{
    c == ' ' || c == '\t' || c == '\n' || c == '\r'
}

proof fn lemma_trim_bounds(s: Seq<char>, start: int, end: int)
    requires
        0 <= start <= end <= s.len(),
        forall|k: int| 0 <= k < start ==> spec_is_trim_space(s[k]),
        forall|k: int| end <= k < s.len() ==> spec_is_trim_space(s[k]),
        start < end ==> !spec_is_trim_space(s[start]),
        start < end ==> !spec_is_trim_space(s[end - 1]),
    ensures
        spec_trimmed(s) == s.subrange(start, end),
    decreases s.len(),
{
    if start > 0 {
        assert(spec_is_trim_space(s[0]));
        assert(forall|k: int| 0 <= k < start - 1 ==> spec_is_trim_space(s.skip(1)[k]));
        assert(forall|k: int| end - 1 <= k < s.skip(1).len() ==> spec_is_trim_space(s.skip(1)[k]));
        lemma_trim_bounds(s.skip(1), start - 1, end - 1);
        assert(s.skip(1).subrange(start - 1, end - 1) =~= s.subrange(start, end));
    } else if end < s.len() {
        assert(spec_is_trim_space(s.last()));
        if s.len() > 0 && spec_is_trim_space(s[0]) {
            assert(start < end ==> !spec_is_trim_space(s[start]));
            assert(start == end);
            assert(forall|k: int| 0 <= k < s.len() ==> spec_is_trim_space(s[k]));
            lemma_trimmed_all_spaces(s);
            assert(s.subrange(start, end) =~= Seq::empty());
        } else {
            assert(forall|k: int| end <= k < s.drop_last().len() ==> spec_is_trim_space(
                s.drop_last()[k],
            ));
            lemma_trim_bounds(s.drop_last(), start, end);
            assert(s.drop_last().subrange(start, end) =~= s.subrange(start, end));
        }
    } else {
        if s.len() > 0 && spec_is_trim_space(s[0]) {
            assert(start == 0 && !(start < end));
            assert(start == end);
            assert(forall|k: int| 0 <= k < s.len() ==> spec_is_trim_space(s[k]));
            lemma_trimmed_all_spaces(s);
            assert(s.subrange(start, end) =~= Seq::empty());
        } else {
            assert(s.subrange(0, s.len() as int) =~= s);
        }
    }
}

proof fn lemma_trimmed_all_spaces(s: Seq<char>)
    requires
        forall|k: int| 0 <= k < s.len() ==> spec_is_trim_space(s[k]),
    ensures
        spec_trimmed(s) == Seq::<char>::empty(),
    decreases s.len(),
{
    if s.len() > 0 {
        assert(forall|k: int| 0 <= k < s.skip(1).len() ==> spec_is_trim_space(s.skip(1)[k]));
        lemma_trimmed_all_spaces(s.skip(1));
    } else {
        assert(s =~= Seq::<char>::empty());
    }
}

/// Trims leading and trailing whitespace, exactly as `spec_trimmed` states.
fn trimmed(s: &str) -> (r: String)
    ensures
        r@ == spec_trimmed(s@),
{
    let len = s.unicode_len();
    let mut start: usize = 0;
    while start < len && is_trim_space(s.get_char(start))
        invariant
            len == s@.len(),
            0 <= start <= len,
            forall|k: int| 0 <= k < start ==> spec_is_trim_space(s@[k]),
        decreases len - start,
    {
        start = start + 1;
    }
    let mut end: usize = len;
    while end > start && is_trim_space(s.get_char(end - 1))
        invariant
            len == s@.len(),
            0 <= start <= end <= len,
            forall|k: int| 0 <= k < start ==> spec_is_trim_space(s@[k]),
            forall|k: int| end <= k < len ==> spec_is_trim_space(s@[k]),
        decreases end,
    {
        end = end - 1;
    }
    proof {
        if start == end && start < len && !spec_is_trim_space(s@[start as int]) {
            assert(false);
        }
        lemma_trim_bounds(s@, start as int, end as int);
    }
    s.substring_char(start, end).to_owned()
}

impl ScwDatabaseInstanceType {
    /// The name under which Scaleway sells this instance type, exactly as
    /// `spec_scw_format` states.
    pub fn to_cloud_provider_format(&self) -> (r: String)
        ensures
            r@ == spec_scw_format(*self),
    {
        match self {
            ScwDatabaseInstanceType::DB_DEV_S => "db-dev-s".to_owned(),
            ScwDatabaseInstanceType::DB_DEV_M => "db-dev-m".to_owned(),
            ScwDatabaseInstanceType::DB_GP_XS => "db-gp-xs".to_owned(),
            ScwDatabaseInstanceType::DB_GP_S => "db-gp-s".to_owned(),
            ScwDatabaseInstanceType::DB_GP_M => "db-gp-m".to_owned(),
            ScwDatabaseInstanceType::RED1_MICRO => "red1-micro".to_owned(),
        }
    }

    /// The instance type's textual form: the provider-side name.
    pub fn to_string(&self) -> (r: String)
        ensures
            r@ == spec_scw_format(*self),
    {
        self.to_cloud_provider_format()
    }

    /// Every listed Scaleway instance type may be picked.
    pub fn is_instance_allowed(&self) -> (r: bool)
        ensures
            r == true,
    {
        match self {
            ScwDatabaseInstanceType::DB_DEV_S => true,
            ScwDatabaseInstanceType::DB_DEV_M => true,
            ScwDatabaseInstanceType::DB_GP_XS => true,
            ScwDatabaseInstanceType::DB_GP_S => true,
            ScwDatabaseInstanceType::DB_GP_M => true,
            ScwDatabaseInstanceType::RED1_MICRO => true,
        }
    }

    /// Engine compatibility, exactly as `spec_scw_compatible` states.
    pub fn is_instance_compatible_with(&self, database_type: DatabaseType) -> (r: bool)
        ensures
            r == spec_scw_compatible(*self, database_type),
    {
        match self {
            ScwDatabaseInstanceType::DB_DEV_S
            | ScwDatabaseInstanceType::DB_DEV_M
            | ScwDatabaseInstanceType::DB_GP_XS
            | ScwDatabaseInstanceType::DB_GP_S
            | ScwDatabaseInstanceType::DB_GP_M => match database_type {
                DatabaseType::PostgreSQL => true,
                DatabaseType::MongoDB => true,
                DatabaseType::MySQL => true,
                DatabaseType::Redis => false,
            },
            ScwDatabaseInstanceType::RED1_MICRO => match database_type {
                DatabaseType::PostgreSQL => false,
                DatabaseType::MongoDB => false,
                DatabaseType::MySQL => false,
                DatabaseType::Redis => true,
            },
        }
    }

    /// The provider this catalog belongs to.
    pub fn cloud_provider(&self) -> (r: Kind)
        ensures
            r == Kind::Scw,
    {
        Kind::Scw
    }

    /// Parses a user-supplied instance-type name: surrounding whitespace is
    /// trimmed and ASCII case ignored; an unknown name is rejected carrying
    /// the raw text.
    pub fn from_str(s: &str) -> (r: Result<ScwDatabaseInstanceType, DatabaseError>)
        ensures
            (match spec_scw_parse(spec_trimmed(s@)) {
                Some(t) => r == Ok::<ScwDatabaseInstanceType, DatabaseError>(t),
                None => r matches Err(e) && (e matches DatabaseError::InvalidDatabaseInstance {
                    requested_database_instance_type,
                    database_cloud_provider,
                } && requested_database_instance_type@ == s@ && database_cloud_provider
                    == Kind::Aws),
            }),
    {
        let t = trimmed(s);
        let t_str = t.as_str();
        if eq_ignore_ascii_case(t_str, "db-dev-s") {
            Ok(ScwDatabaseInstanceType::DB_DEV_S)
        } else if eq_ignore_ascii_case(t_str, "db-dev-m") {
            Ok(ScwDatabaseInstanceType::DB_DEV_M)
        } else if eq_ignore_ascii_case(t_str, "db-gp-xs") {
            Ok(ScwDatabaseInstanceType::DB_GP_XS)
        } else if eq_ignore_ascii_case(t_str, "db-gp-s") {
            Ok(ScwDatabaseInstanceType::DB_GP_S)
        } else if eq_ignore_ascii_case(t_str, "db-gp-m") {
            Ok(ScwDatabaseInstanceType::DB_GP_M)
        } else if eq_ignore_ascii_case(t_str, "red1-micro") {
            Ok(ScwDatabaseInstanceType::RED1_MICRO)
        } else {
            Err(DatabaseError::InvalidDatabaseInstance {
                database_cloud_provider: Kind::Aws,
                requested_database_instance_type: s.to_owned(),
            })
        }
    }
}

impl DatabaseInstanceType for ScwDatabaseInstanceType {
    open spec fn spec_cloud_provider(&self) -> Kind {
        Kind::Scw
    }

    fn cloud_provider(&self) -> (r: Kind) {
        Kind::Scw
    }

    fn to_cloud_provider_format(&self) -> String {
        self.to_cloud_provider_format()
    }

    fn is_instance_allowed(&self) -> bool {
        self.is_instance_allowed()
    }

    fn is_instance_compatible_with(&self, database_type: DatabaseType) -> bool {
        self.is_instance_compatible_with(database_type)
    }
}

} // verus!
