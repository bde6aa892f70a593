//! SSO profiles read from an AWS shared config file (`~/.aws/config`).
//!
//! The file is a sequence of lines. A trimmed line of the form `[...]` opens
//! a section, whose name is the text between the brackets without a leading
//! `"profile "`. A line holding `=` sets the key before the first `=` to the
//! value after it (both trimmed) in the current section; a later setting of a
//! key replaces an earlier one. Every other line is ignored. A section yields
//! a profile when it sets all of `sso_start_url`, `sso_region`,
//! `sso_account_id` and `sso_role_name`; its `region` defaults to
//! `"us-east-1"`.
use vstd::prelude::*;
use crate::text::{
    chars_equal, chars_of, concat_str, copy_range, find_char, lemma_next_char_bounds, lines,
    lines_from, next_char, range_has_prefix, string_from_chars, strip_cr, strip_prefix, trim,
    trim_range,
};

verus! {

/// One SSO profile of the config file.
#[derive(Debug, Clone, PartialEq, Eq)]
pub struct SsoProfile {
    pub name: String,
    pub sso_start_url: String,
    pub sso_region: String,
    pub sso_account_id: String,
    pub sso_role_name: String,
    pub region: String,
}

/// The mathematical value of an [`SsoProfile`]: its fields as character sequences.
pub struct ProfileView {
    pub name: Seq<char>,
    pub sso_start_url: Seq<char>,
    pub sso_region: Seq<char>,
    pub sso_account_id: Seq<char>,
    pub sso_role_name: Seq<char>,
    pub region: Seq<char>,
}

impl View for SsoProfile {
    type V = ProfileView;

    open spec fn view(&self) -> ProfileView {
        ProfileView {
            name: self.name@,
            sso_start_url: self.sso_start_url@,
            sso_region: self.sso_region@,
            sso_account_id: self.sso_account_id@,
            sso_role_name: self.sso_role_name@,
            region: self.region@,
        }
    }
}

impl SsoProfile {
    /// A copy of this profile.
    pub fn duplicate(&self) -> (p: SsoProfile)
        ensures
            p@ == self@,
    {
        SsoProfile {
            name: self.name.clone(),
            sso_start_url: self.sso_start_url.clone(),
            sso_region: self.sso_region.clone(),
            sso_account_id: self.sso_account_id.clone(),
            sso_role_name: self.sso_role_name.clone(),
            region: self.region.clone(),
        }
    }
}

/// The views of a sequence of profiles.
pub open spec fn profiles_view(ps: Seq<SsoProfile>) -> Seq<ProfileView> {
    ps.map_values(|p: SsoProfile| p@)
}

/// A key that a section must set for a profile to be built from it.
pub enum ProfileField {
    SsoStartUrl,
    SsoRegion,
    SsoAccountId,
    SsoRoleName,
}

/// Why a section yields no profile.
pub enum ConfigError {
    MissingField(ProfileField),
}

impl ProfileField {
    /// The key's name in the config file.
    pub open spec fn key(self) -> Seq<char> {
        match self {
            ProfileField::SsoStartUrl => "sso_start_url"@,
            ProfileField::SsoRegion => "sso_region"@,
            ProfileField::SsoAccountId => "sso_account_id"@,
            ProfileField::SsoRoleName => "sso_role_name"@,
        }
    }
}

impl ConfigError {
    /// The error's text: `"missing "` and the key.
    pub fn message(&self) -> (s: String)
        ensures
            s@ == "missing "@ + match self {
                ConfigError::MissingField(f) => f.key(),
            },
    {
        match self {
            ConfigError::MissingField(ProfileField::SsoStartUrl) => concat_str(
                "missing ",
                "sso_start_url",
            ),
            ConfigError::MissingField(ProfileField::SsoRegion) => concat_str(
                "missing ",
                "sso_region",
            ),
            ConfigError::MissingField(ProfileField::SsoAccountId) => concat_str(
                "missing ",
                "sso_account_id",
            ),
            ConfigError::MissingField(ProfileField::SsoRoleName) => concat_str(
                "missing ",
                "sso_role_name",
            ),
        }
    }
}

/// What a section has set of the keys that a profile reads.
pub struct FieldsView {
    pub sso_start_url: Option<Seq<char>>,
    pub sso_region: Option<Seq<char>>,
    pub sso_account_id: Option<Seq<char>>,
    pub sso_role_name: Option<Seq<char>>,
    pub region: Option<Seq<char>>,
}

pub open spec fn lookup(m: Map<Seq<char>, Seq<char>>, key: Seq<char>) -> Option<Seq<char>> {
    if m.contains_key(key) {
        Some(m[key])
    } else {
        None
    }
}

/// The keys of a section's settings that a profile reads.
pub open spec fn fields_of(m: Map<Seq<char>, Seq<char>>) -> FieldsView {
    FieldsView {
        sso_start_url: lookup(m, "sso_start_url"@),
        sso_region: lookup(m, "sso_region"@),
        sso_account_id: lookup(m, "sso_account_id"@),
        sso_role_name: lookup(m, "sso_role_name"@),
        region: lookup(m, "region"@),
    }
}

/// The profile named `name` built from a section's fields, or the first
/// required key (in the order start URL, SSO region, account, role) that the
/// section does not set.
pub open spec fn profile_from_fields(name: Seq<char>, f: FieldsView) -> Result<
    ProfileView,
    ConfigError,
> {
    match (f.sso_start_url, f.sso_region, f.sso_account_id, f.sso_role_name) {
        (None, _, _, _) => Err(ConfigError::MissingField(ProfileField::SsoStartUrl)),
        (Some(_), None, _, _) => Err(ConfigError::MissingField(ProfileField::SsoRegion)),
        (Some(_), Some(_), None, _) => Err(ConfigError::MissingField(ProfileField::SsoAccountId)),
        (Some(_), Some(_), Some(_), None) => Err(ConfigError::MissingField(ProfileField::SsoRoleName)),
        (Some(url), Some(sso_region), Some(account), Some(role)) => Ok(
            ProfileView {
                name,
                sso_start_url: url,
                sso_region,
                sso_account_id: account,
                sso_role_name: role,
                region: match f.region {
                    Some(r) => r,
                    None => "us-east-1"@,
                },
            },
        ),
    }
}

/// The parser's state between lines: the profiles so far, the open section's
/// name, and the settings of the open section.
pub struct ParseState {
    pub profiles: Seq<ProfileView>,
    pub section: Option<Seq<char>>,
    pub fields: Map<Seq<char>, Seq<char>>,
}

pub open spec fn initial_state() -> ParseState {
    ParseState { profiles: seq![], section: None, fields: Map::empty() }
}

/// The profiles once the open section is closed.
pub open spec fn close_section(st: ParseState) -> Seq<ProfileView> {
    match st.section {
        Some(name) => match profile_from_fields(name, fields_of(st.fields)) {
            Ok(p) => st.profiles.push(p),
            Err(_) => st.profiles,
        },
        None => st.profiles,
    }
}

/// Whether a trimmed line opens a section.
pub open spec fn is_header(line: Seq<char>) -> bool {
    line.len() > 0 && line[0] == '[' && line.last() == ']'
}

/// The name of the section that a header opens.
pub open spec fn header_name(line: Seq<char>) -> Seq<char> {
    strip_prefix(line.subrange(1, line.len() - 1), "profile "@)
}

/// The effect of one trimmed line.
pub open spec fn apply_trimmed(st: ParseState, line: Seq<char>) -> ParseState {
    if is_header(line) {
        ParseState {
            profiles: close_section(st),
            section: Some(header_name(line)),
            fields: Map::empty(),
        }
    } else {
        let e = next_char(line, '=', 0);
        if e < line.len() {
            ParseState {
                profiles: st.profiles,
                section: st.section,
                fields: st.fields.insert(trim(line.take(e)), trim(line.skip(e + 1))),
            }
        } else {
            st
        }
    }
}

/// The effect of a sequence of lines.
pub open spec fn apply_lines(st: ParseState, ls: Seq<Seq<char>>) -> ParseState
    decreases ls.len(),
{
    if ls.len() == 0 {
        st
    } else {
        apply_lines(apply_trimmed(st, trim(ls[0])), ls.drop_first())
    }
}

/// The profiles of a config file's text, in the order of their sections.
pub open spec fn parsed_profiles(content: Seq<char>) -> Seq<ProfileView> {
    close_section(apply_lines(initial_state(), lines(content)))
}

/// What the open section has set of the keys that a profile reads.
pub struct SectionFields {
    pub sso_start_url: Option<Vec<char>>,
    pub sso_region: Option<Vec<char>>,
    pub sso_account_id: Option<Vec<char>>,
    pub sso_role_name: Option<Vec<char>>,
    pub region: Option<Vec<char>>,
}

pub open spec fn opt_chars(o: Option<Vec<char>>) -> Option<Seq<char>> {
    match o {
        Some(v) => Some(v@),
        None => None,
    }
}

impl View for SectionFields {
    type V = FieldsView;

    open spec fn view(&self) -> FieldsView {
        FieldsView {
            sso_start_url: opt_chars(self.sso_start_url),
            sso_region: opt_chars(self.sso_region),
            sso_account_id: opt_chars(self.sso_account_id),
            sso_role_name: opt_chars(self.sso_role_name),
            region: opt_chars(self.region),
        }
    }
}

fn copy_opt(o: &Option<Vec<char>>) -> (r: Option<Vec<char>>)
    ensures
        opt_chars(r) == opt_chars(*o),
{
    match o {
        Some(v) => Some(v.clone()),
        None => None,
    }
}

/// The profile named `name` built from a section's fields; the error names
/// the first required key that is missing.
pub fn build_profile(name: String, fields: &SectionFields) -> (r: Result<SsoProfile, ConfigError>)
    ensures
        match (r, profile_from_fields(name@, fields@)) {
            (Ok(p), Ok(q)) => p@ == q,
            (Err(e), Err(f)) => e == f,
            _ => false,
        },
{
    let url = match &fields.sso_start_url {
        Some(v) => string_from_chars(v.as_slice()),
        None => { return Err(ConfigError::MissingField(ProfileField::SsoStartUrl)); },
    };
    let sso_region = match &fields.sso_region {
        Some(v) => string_from_chars(v.as_slice()),
        None => { return Err(ConfigError::MissingField(ProfileField::SsoRegion)); },
    };
    let account = match &fields.sso_account_id {
        Some(v) => string_from_chars(v.as_slice()),
        None => { return Err(ConfigError::MissingField(ProfileField::SsoAccountId)); },
    };
    let role = match &fields.sso_role_name {
        Some(v) => string_from_chars(v.as_slice()),
        None => { return Err(ConfigError::MissingField(ProfileField::SsoRoleName)); },
    };
    let region = match &fields.region {
        Some(v) => string_from_chars(v.as_slice()),
        None => String::from_str("us-east-1"),
    };
    Ok(
        SsoProfile {
            name,
            sso_start_url: url,
            sso_region,
            sso_account_id: account,
            sso_role_name: role,
            region,
        },
    )
}

proof fn lemma_keys_distinct()
    ensures
        "sso_start_url"@ != "sso_region"@,
        "sso_start_url"@ != "sso_account_id"@,
        "sso_start_url"@ != "sso_role_name"@,
        "sso_start_url"@ != "region"@,
        "sso_region"@ != "sso_account_id"@,
        "sso_region"@ != "sso_role_name"@,
        "sso_region"@ != "region"@,
        "sso_account_id"@ != "sso_role_name"@,
        "sso_account_id"@ != "region"@,
        "sso_role_name"@ != "region"@,
{
    reveal_strlit("sso_start_url");
    reveal_strlit("sso_region");
    reveal_strlit("sso_account_id");
    reveal_strlit("sso_role_name");
    reveal_strlit("region");
    assert("sso_start_url"@.len() == 13);
    assert("sso_region"@.len() == 10);
    assert("sso_account_id"@.len() == 14);
    assert("sso_role_name"@.len() == 13);
    assert("region"@.len() == 6);
    assert("sso_start_url"@[4] != "sso_role_name"@[4]);
}

/// The keys that a profile reads, as characters.
struct FieldKeys {
    sso_start_url: Vec<char>,
    sso_region: Vec<char>,
    sso_account_id: Vec<char>,
    sso_role_name: Vec<char>,
    region: Vec<char>,
    profile_prefix: Vec<char>,
}

impl FieldKeys {
    spec fn wf(&self) -> bool {
        &&& self.sso_start_url@ == "sso_start_url"@
        &&& self.sso_region@ == "sso_region"@
        &&& self.sso_account_id@ == "sso_account_id"@
        &&& self.sso_role_name@ == "sso_role_name"@
        &&& self.region@ == "region"@
        &&& self.profile_prefix@ == "profile "@
    }

    fn new() -> (k: FieldKeys)
        ensures
            k.wf(),
    {
        FieldKeys {
            sso_start_url: chars_of("sso_start_url"),
            sso_region: chars_of("sso_region"),
            sso_account_id: chars_of("sso_account_id"),
            sso_role_name: chars_of("sso_role_name"),
            region: chars_of("region"),
            profile_prefix: chars_of("profile "),
        }
    }
}

/// The parser between lines.
struct Parser {
    profiles: Vec<SsoProfile>,
    section: Option<Vec<char>>,
    fields: SectionFields,
    settings: Ghost<Map<Seq<char>, Seq<char>>>,
}

impl Parser {
    spec fn wf(&self) -> bool {
        self.fields@ == fields_of(self.settings@)
    }

    spec fn state(&self) -> ParseState {
        ParseState {
            profiles: profiles_view(self.profiles@),
            section: opt_chars(self.section),
            fields: self.settings@,
        }
    }

    fn new() -> (p: Parser)
        ensures
            p.wf(),
            p.state() == initial_state(),
    {
        let p = Parser {
            profiles: Vec::new(),
            section: None,
            fields: SectionFields {
                sso_start_url: None,
                sso_region: None,
                sso_account_id: None,
                sso_role_name: None,
                region: None,
            },
            settings: Ghost(Map::empty()),
        };
        assert(profiles_view(p.profiles@) =~= seq![]);
        p
    }

    /// Closes the open section, adding its profile where it has one.
    fn close(&mut self)
        requires
            old(self).wf(),
        ensures
            profiles_view(final(self).profiles@) == close_section(old(self).state()),
    {
        let ghost before = self.state();
        match &self.section {
            Some(name) => {
                let name = string_from_chars(name.as_slice());
                match build_profile(name, &self.fields) {
                    Ok(p) => {
                        self.profiles.push(p);
                        assert(profiles_view(self.profiles@) =~= before.profiles.push(p@));
                    },
                    Err(_) => {},
                }
            },
            None => {},
        }
    }

    /// Records the setting `key = value` in the open section.
    fn set(&mut self, key: Vec<char>, value: Vec<char>, keys: &FieldKeys)
        requires
            old(self).wf(),
            keys.wf(),
        ensures
            final(self).wf(),
            final(self).state() == (ParseState {
                fields: old(self).settings@.insert(key@, value@),
                ..old(self).state()
            }),
    {
        let ghost m = self.settings@.insert(key@, value@);
        proof {
            lemma_keys_distinct();
        }
        if chars_equal(&key, &keys.sso_start_url) {
            self.fields.sso_start_url = Some(value);
        } else if chars_equal(&key, &keys.sso_region) {
            self.fields.sso_region = Some(value);
        } else if chars_equal(&key, &keys.sso_account_id) {
            self.fields.sso_account_id = Some(value);
        } else if chars_equal(&key, &keys.sso_role_name) {
            self.fields.sso_role_name = Some(value);
        } else if chars_equal(&key, &keys.region) {
            self.fields.region = Some(value);
        }
        self.settings = Ghost(m);
        assert(self.fields@ == fields_of(m));
    }

    /// The effect of one trimmed line.
    fn apply(&mut self, line: Vec<char>, keys: &FieldKeys)
        requires
            old(self).wf(),
            keys.wf(),
        ensures
            final(self).wf(),
            final(self).state() == apply_trimmed(old(self).state(), line@),
    {
        let n = line.len();
        if n > 0 && line[0] == '[' && line[n - 1] == ']' {
            self.close();
            let name = if range_has_prefix(&line, 1, n - 1, &keys.profile_prefix) {
                let name = copy_range(&line, 1 + keys.profile_prefix.len(), n - 1);
                assert(name@ =~= line@.subrange(1, n - 1).skip("profile "@.len() as int));
                name
            } else {
                copy_range(&line, 1, n - 1)
            };
            self.section = Some(name);
            self.fields = SectionFields {
                sso_start_url: None,
                sso_region: None,
                sso_account_id: None,
                sso_role_name: None,
                region: None,
            };
            self.settings = Ghost(Map::empty());
            assert(self.fields@ == fields_of(Map::empty()));
        } else {
            let e = find_char(&line, '=', 0);
            if e < n {
                let key = trim_range(&line, 0, e);
                let value = trim_range(&line, e + 1, n);
                assert(line@.take(e as int) =~= line@.subrange(0, e as int));
                assert(line@.skip(e + 1) =~= line@.subrange(e + 1, n as int));
                self.set(key, value, keys);
            }
        }
    }
}

/// The SSO profiles of a config file's text, in the order of their sections.
/// Sections that lack a required key are skipped; this never fails.
pub fn parse_sso_profiles(content: &str) -> (r: Result<Vec<SsoProfile>, ConfigError>)
    ensures
        match r {
            Ok(ps) => profiles_view(ps@) == parsed_profiles(content@),
            Err(_) => false,
        },
{
    let s = chars_of(content);
    let keys = FieldKeys::new();
    let mut parser = Parser::new();
    let mut i: usize = 0;
    while i < s.len()
        invariant
            i <= s@.len(),
            s@ == content@,
            keys.wf(),
            parser.wf(),
            apply_lines(parser.state(), lines_from(s@, i as int)) == apply_lines(
                initial_state(),
                lines(s@),
            ),
        decreases s@.len() - i,
    {
        let j = find_char(&s, '\n', i);
        proof {
            lemma_next_char_bounds(s@, '\n', i as int);
        }
        let end = if j < s.len() && j > i && s[j - 1] == '\r' {
            j - 1
        } else {
            j
        };
        let ghost raw = if j >= s@.len() {
            s@.subrange(i as int, s@.len() as int)
        } else {
            strip_cr(s@.subrange(i as int, j as int))
        };
        assert(raw =~= s@.subrange(i as int, end as int));
        let ghost rest = if j >= s@.len() {
            seq![]
        } else {
            lines_from(s@, j + 1)
        };
        assert(lines_from(s@, i as int) == seq![raw] + rest);
        assert((seq![raw] + rest).drop_first() =~= rest);
        assert((seq![raw] + rest)[0] == raw);
        let line = trim_range(&s, i, end);
        parser.apply(line, &keys);
        if j < s.len() {
            i = j + 1;
        } else {
            assert(lines_from(s@, s@.len() as int) =~= seq![]);
            i = s.len();
        }
    }
    assert(lines_from(s@, i as int) =~= seq![]);
    parser.close();
    Ok(parser.profiles)
}


/// Applying lines one part after another is applying them all.
proof fn lemma_apply_lines_concat(st: ParseState, l1: Seq<Seq<char>>, l2: Seq<Seq<char>>)
    ensures
        apply_lines(st, l1 + l2) == apply_lines(apply_lines(st, l1), l2),
    decreases l1.len(),
{
    if l1.len() == 0 {
        assert(l1 + l2 =~= l2);
    } else {
        assert((l1 + l2)[0] == l1[0]);
        assert((l1 + l2).drop_first() =~= l1.drop_first() + l2);
        lemma_apply_lines_concat(apply_trimmed(st, trim(l1[0])), l1.drop_first(), l2);
    }
}

/// The profiles found earlier do not change how later lines are read: they
/// stay in front of whatever the lines add.
proof fn lemma_apply_lines_prefix(
    p: Seq<ProfileView>,
    q: Seq<ProfileView>,
    section: Option<Seq<char>>,
    fields: Map<Seq<char>, Seq<char>>,
    ls: Seq<Seq<char>>,
)
    ensures
        ({
            let with = apply_lines(ParseState { profiles: p + q, section, fields }, ls);
            let without = apply_lines(ParseState { profiles: q, section, fields }, ls);
            &&& with.profiles == p + without.profiles
            &&& with.section == without.section
            &&& with.fields == without.fields
            &&& close_section(with) == p + close_section(without)
        }),
    decreases ls.len(),
{
    let st_with = ParseState { profiles: p + q, section, fields };
    let st_without = ParseState { profiles: q, section, fields };
    if ls.len() == 0 {
        match section {
            Some(n) => match profile_from_fields(n, fields_of(fields)) {
                Ok(v) => {
                    assert((p + q).push(v) =~= p + q.push(v));
                },
                Err(_) => {},
            },
            None => {},
        }
    } else {
        let a = apply_trimmed(st_with, trim(ls[0]));
        let b = apply_trimmed(st_without, trim(ls[0]));
        let line = trim(ls[0]);
        if is_header(line) {
            match section {
                Some(n) => match profile_from_fields(n, fields_of(fields)) {
                    Ok(v) => {
                        assert((p + q).push(v) =~= p + q.push(v));
                    },
                    Err(_) => {},
                },
                None => {},
            }
            assert(a.profiles == p + b.profiles);
            lemma_apply_lines_prefix(p, b.profiles, a.section, a.fields, ls.drop_first());
            assert(a == ParseState { profiles: p + b.profiles, section: a.section, fields: a.fields });
        } else {
            assert(a.profiles == p + b.profiles);
            lemma_apply_lines_prefix(p, b.profiles, a.section, a.fields, ls.drop_first());
            assert(a == ParseState { profiles: p + b.profiles, section: a.section, fields: a.fields });
        }
    }
}

proof fn lemma_next_char_shift(a: Seq<char>, b: Seq<char>, c: char, k: int)
    requires
        0 <= k <= b.len(),
    ensures
        next_char(a + b, c, a.len() + k) == a.len() + next_char(b, c, k),
    decreases b.len() - k,
{
    if k < b.len() {
        assert((a + b)[a.len() + k] == b[k]);
        if b[k] != c {
            lemma_next_char_shift(a, b, c, k + 1);
        }
    }
}

/// The lines of `a + b` from a position inside `b` are those of `b`.
proof fn lemma_lines_shift(a: Seq<char>, b: Seq<char>, k: int)
    requires
        0 <= k <= b.len(),
    ensures
        lines_from(a + b, a.len() + k) == lines_from(b, k),
    decreases b.len() - k,
{
    if k < b.len() {
        lemma_next_char_shift(a, b, '\n', k);
        lemma_next_char_bounds(b, '\n', k);
        let j = next_char(b, '\n', k);
        if j >= b.len() {
            assert((a + b).subrange(a.len() + k, (a + b).len() as int) =~= b.subrange(k, b.len() as int));
        } else {
            assert((a + b).subrange(a.len() + k, a.len() + j) =~= b.subrange(k, j));
            lemma_lines_shift(a, b, j + 1);
        }
    }
}

/// When `a` is empty or ends a line, the lines of `a + b` from a position
/// inside `a` are those of `a` followed by all lines of `b`.
proof fn lemma_lines_concat(a: Seq<char>, b: Seq<char>, i: int)
    requires
        0 <= i <= a.len(),
        a.len() > 0 ==> a.last() == '\n',
    ensures
        lines_from(a + b, i) == lines_from(a, i) + lines(b),
    decreases a.len() - i,
{
    if i == a.len() {
        lemma_lines_shift(a, b, 0);
        assert(lines_from(a, i) =~= seq![]);
        assert(lines_from(a, i) + lines(b) =~= lines(b));
    } else {
        lemma_next_char_bounds(a, '\n', i);
        let j = next_char(a, '\n', i);
        assert(j < a.len()) by {
            if j >= a.len() {
                assert(a[a.len() - 1] != '\n');
            }
        }
        assert forall|k: int| i <= k < j implies (a + b)[k] != '\n' by {
            assert((a + b)[k] == a[k]);
        }
        lemma_next_char_prefix(a, b, i);
        assert((a + b).subrange(i, j) =~= a.subrange(i, j));
        lemma_lines_concat(a, b, j + 1);
        assert(lines_from(a + b, i) == seq![strip_cr(a.subrange(i, j))] + lines_from(a + b, j + 1));
        assert(lines_from(a, i) == seq![strip_cr(a.subrange(i, j))] + lines_from(a, j + 1));
        assert(seq![strip_cr(a.subrange(i, j))] + (lines_from(a, j + 1) + lines(b)) =~= (seq![
            strip_cr(a.subrange(i, j)),
        ] + lines_from(a, j + 1)) + lines(b));
    }
}

proof fn lemma_next_char_prefix(a: Seq<char>, b: Seq<char>, i: int)
    requires
        0 <= i <= a.len(),
        next_char(a, '\n', i) < a.len(),
    ensures
        next_char(a + b, '\n', i) == next_char(a, '\n', i),
    decreases a.len() - i,
{
    assert((a + b)[i] == a[i]);
    if a[i] != '\n' {
        lemma_next_char_prefix(a, b, i + 1);
    }
}

/// A config with no section header yields no profile: settings before the
/// first header belong to no profile.
pub proof fn lemma_no_header_no_profiles(content: Seq<char>)
    requires
        forall|i: int| 0 <= i < lines(content).len() ==> !is_header(trim(#[trigger] lines(content)[i])),
    ensures
        parsed_profiles(content) == Seq::<ProfileView>::empty(),
{
    lemma_headerless_lines(initial_state(), lines(content));
}

proof fn lemma_headerless_lines(st: ParseState, ls: Seq<Seq<char>>)
    requires
        st.profiles.len() == 0,
        st.section is None,
        forall|i: int| 0 <= i < ls.len() ==> !is_header(trim(#[trigger] ls[i])),
    ensures
        apply_lines(st, ls).profiles.len() == 0,
        apply_lines(st, ls).section is None,
    decreases ls.len(),
{
    if ls.len() > 0 {
        assert(!is_header(trim(ls[0])));
        assert forall|i: int| 0 <= i < ls.drop_first().len() implies !is_header(trim(#[trigger] ls.drop_first()[i])) by {
            assert(ls.drop_first()[i] == ls[i + 1]);
        }
        lemma_headerless_lines(apply_trimmed(st, trim(ls[0])), ls.drop_first());
    }
}

/// Sections are read on their own: a config made of a first part that ends a
/// line and a second part that opens with a section header yields the
/// profiles of the first part followed by those of the second.
pub proof fn lemma_sections_independent(a: Seq<char>, b: Seq<char>)
    requires
        a.len() > 0 ==> a.last() == '\n',
        lines(b).len() > 0,
        is_header(trim(lines(b)[0])),
    ensures
        parsed_profiles(a + b) == parsed_profiles(a) + parsed_profiles(b),
{
    lemma_lines_concat(a, b, 0);
    let la = lines(a);
    let lb = lines(b);
    lemma_apply_lines_concat(initial_state(), la, lb);
    let sa = apply_lines(initial_state(), la);
    let header = trim(lb[0]);
    let pa = close_section(sa);
    let after_a = apply_trimmed(sa, header);
    let after_init = apply_trimmed(initial_state(), header);
    assert(after_init.profiles =~= Seq::<ProfileView>::empty());
    assert(pa + after_init.profiles =~= pa);
    assert(after_a == ParseState { profiles: pa + after_init.profiles, section: after_init.section, fields: after_init.fields });
    lemma_apply_lines_prefix(pa, after_init.profiles, after_init.section, after_init.fields, lb.drop_first());
}

} // verus!
