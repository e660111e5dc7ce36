//! The structured-output parser: a JSON document written by the workload to a
//! shared volume is parsed into a typed key-to-variable mapping. A malformed
//! top-level document is a hard error; a malformed individual entry is
//! dropped silently, so partial output never aborts an otherwise successful
//! run. Only the JSON text decoding itself is delegated to an outside
//! library; every decision over the decoded document is verified here.
use vstd::prelude::*;

verus! {

use vstd::string::StringExecFns;
use vstd::string::StrSliceExecFns;
use crate::strutil::{str_eq, push_char};

/// One output variable captured from the workload: its value, whether it is
/// sensitive, and a human description.
#[derive(Debug, Clone, PartialEq, Eq)]
pub struct JobOutputVariable {
    pub value: String,
    pub sensitive: bool,
    pub description: String,
}

pub struct JobOutputVariableView {
    pub value: Seq<char>,
    pub sensitive: bool,
    pub description: Seq<char>,
}

impl View for JobOutputVariable {
    type V = JobOutputVariableView;

    open spec fn view(&self) -> JobOutputVariableView {
        JobOutputVariableView {
            value: self.value@,
            sensitive: self.sensitive,
            description: self.description@,
        }
    }
}

impl Default for JobOutputVariable {
    /// The default variable is empty and sensitive: a variable whose
    /// sensitivity is unknown must not be exposed.
    fn default() -> (r: JobOutputVariable)
        ensures
            r@.value == Seq::<char>::empty(),
            r@.sensitive == true,
            r@.description == Seq::<char>::empty(),
    {
        JobOutputVariable { value: String::new(), sensitive: true, description: String::new() }
    }
}

/// One field of a decoded output entry: a JSON string carries its text, a
/// JSON boolean carries its truth value, and any other JSON value carries its
/// canonical JSON text.
pub enum FieldValue {
    Text(String),
    Flag(bool),
    OtherJson(String),
}

/// What a top-level JSON value decodes to: either it was itself a JSON
/// object, whose fields are listed in document order, or it was not an
/// object at all.
pub enum EntryPayload {
    NotObject,
    Fields(Vec<(String, FieldValue)>),
}

/// One top-level entry of the decoded output document.
pub struct OutputEntry {
    pub key: String,
    pub payload: EntryPayload,
}

pub enum FieldValueView {
    Text(Seq<char>),
    Flag(bool),
    OtherJson(Seq<char>),
}

pub enum EntryPayloadView {
    NotObject,
    Fields(Seq<(Seq<char>, FieldValueView)>),
}

pub struct OutputEntryView {
    pub key: Seq<char>,
    pub payload: EntryPayloadView,
}

impl View for FieldValue {
    type V = FieldValueView;

    open spec fn view(&self) -> FieldValueView {
        match self {
            FieldValue::Text(t) => FieldValueView::Text(t@),
            FieldValue::Flag(b) => FieldValueView::Flag(*b),
            FieldValue::OtherJson(t) => FieldValueView::OtherJson(t@),
        }
    }
}

pub open spec fn spec_field_views(fields: Seq<(String, FieldValue)>) -> Seq<(Seq<char>, FieldValueView)> {
    fields.map_values(|f: (String, FieldValue)| (f.0@, f.1@))
}

impl View for EntryPayload {
    type V = EntryPayloadView;

    open spec fn view(&self) -> EntryPayloadView {
        match self {
            EntryPayload::NotObject => EntryPayloadView::NotObject,
            EntryPayload::Fields(fields) => EntryPayloadView::Fields(spec_field_views(fields@)),
        }
    }
}

impl View for OutputEntry {
    type V = OutputEntryView;

    open spec fn view(&self) -> OutputEntryView {
        OutputEntryView { key: self.key@, payload: self.payload@ }
    }
}

pub open spec fn spec_entry_views(entries: Seq<OutputEntry>) -> Seq<OutputEntryView> {
    entries.map_values(|e: OutputEntry| e@)
}

/// What decoding the output document returns: the decoded entries where the
/// text is a JSON object, nothing where it is not. The decoding is a function
/// of the text alone.
pub uninterp spec fn spec_output_document(raw: Seq<char>) -> Option<Seq<OutputEntryView>>;

/// Relies on serde_json::from_str to decode the document (it succeeds exactly
/// on a JSON object), on serde_json's map holding one entry per distinct key,
/// and on serde_json::Value::to_string for the canonical JSON text of a
/// non-string, non-boolean field.
#[verifier::external_body]
fn parse_output_document(raw: &str) -> (r: Result<Vec<OutputEntry>, String>)
    ensures
        r is Ok <==> spec_output_document(raw@) is Some,
        r matches Ok(entries) ==> Some(spec_entry_views(entries@)) == spec_output_document(raw@),
{
    match serde_json::from_str::<serde_json::Map<String, serde_json::Value>>(raw) {
        Ok(doc) => Ok(doc.into_iter().map(|(key, value)| OutputEntry {
            key,
            payload: match value {
                serde_json::Value::Object(fields) => EntryPayload::Fields(
                    fields.into_iter().map(|(name, field)| (name, match field {
                        serde_json::Value::String(text) => FieldValue::Text(text),
                        serde_json::Value::Bool(flag) => FieldValue::Flag(flag),
                        other => FieldValue::OtherJson(other.to_string()),
                    })).collect()),
                _ => EntryPayload::NotObject,
            },
        }).collect()),
        Err(err) => Err(err.to_string()),
    }
}

/// The first field of the given name, if any.
pub open spec fn spec_field_lookup(fields: Seq<(Seq<char>, FieldValueView)>, name: Seq<char>) -> Option<
    FieldValueView,
>
    decreases fields.len(),
{
    if fields.len() == 0 {
        None
    } else if fields[0].0 == name {
        Some(fields[0].1)
    } else {
        spec_field_lookup(fields.skip(1), name)
    }
}

/// The variable extracted from one entry's fields. The `value` field is kept
/// verbatim where it is a JSON string and is otherwise its canonical JSON
/// text, an absent `value` reading `null`; `sensitive` defaults to false and
/// `description` to the empty string where absent or of the wrong type.
pub open spec fn spec_variable_of_fields(fields: Seq<(Seq<char>, FieldValueView)>) -> JobOutputVariableView {
    JobOutputVariableView {
        value: match spec_field_lookup(fields, "value"@) {
            Some(FieldValueView::Text(t)) => t,
            Some(FieldValueView::Flag(b)) => if b {
                "true"@
            } else {
                "false"@
            },
            Some(FieldValueView::OtherJson(t)) => t,
            None => "null"@,
        },
        sensitive: match spec_field_lookup(fields, "sensitive"@) {
            Some(FieldValueView::Flag(b)) => b,
            _ => false,
        },
        description: match spec_field_lookup(fields, "description"@) {
            Some(FieldValueView::Text(t)) => t,
            _ => Seq::empty(),
        },
    }
}

proof fn lemma_field_lookup_skip(fields: Seq<(Seq<char>, FieldValueView)>, name: Seq<char>, i: int)
    requires
        0 <= i < fields.len(),
        fields[i].0 != name,
    ensures
        spec_field_lookup(fields.skip(i), name) == spec_field_lookup(fields.skip(i + 1), name),
{
    assert(fields.skip(i)[0] == fields[i]);
    assert(fields.skip(i).skip(1) =~= fields.skip(i + 1));
}

fn field_lookup<'a>(fields: &'a Vec<(String, FieldValue)>, name: &str) -> (r: Option<&'a FieldValue>)
    ensures
        match r {
            Some(f) => spec_field_lookup(spec_field_views(fields@), name@) == Some(f@),
            None => spec_field_lookup(spec_field_views(fields@), name@) is None,
        },
{
    let ghost mapped = spec_field_views(fields@);
    let mut i: usize = 0;
    assert(mapped.skip(0) =~= mapped);
    while i < fields.len()
        invariant
            0 <= i <= fields.len(),
            mapped == spec_field_views(fields@),
            mapped.len() == fields@.len(),
            spec_field_lookup(mapped, name@) == spec_field_lookup(mapped.skip(i as int), name@),
        decreases fields.len() - i,
    {
        assert(mapped.skip(i as int)[0] == mapped[i as int]);
        if str_eq(fields[i].0.as_str(), name) {
            return Some(&fields[i].1);
        }
        proof {
            lemma_field_lookup_skip(mapped, name@, i as int);
        }
        i = i + 1;
    }
    assert(mapped.skip(i as int) =~= Seq::empty());
    None
}

/// Extracts the variable of one entry's fields, exactly as
/// `spec_variable_of_fields` states.
fn variable_of_fields(fields: &Vec<(String, FieldValue)>) -> (r: JobOutputVariable)
    ensures
        r@ == spec_variable_of_fields(spec_field_views(fields@)),
{
    let value = match field_lookup(fields, "value") {
        Some(FieldValue::Text(t)) => t.clone(),
        Some(FieldValue::Flag(b)) => if *b {
            "true".to_owned()
        } else {
            "false".to_owned()
        },
        Some(FieldValue::OtherJson(t)) => t.clone(),
        None => "null".to_owned(),
    };
    let sensitive = match field_lookup(fields, "sensitive") {
        Some(FieldValue::Flag(b)) => *b,
        _ => false,
    };
    let description = match field_lookup(fields, "description") {
        Some(FieldValue::Text(t)) => t.clone(),
        _ => String::new(),
    };
    JobOutputVariable { value, sensitive, description }
}

/// The key-to-variable mapping produced from the decoded entries: an entry
/// that is not an object is dropped; among entries sharing a key the last
/// one wins, as an insertion per entry would have it.
pub open spec fn spec_collect_output(entries: Seq<OutputEntryView>) -> Map<Seq<char>, JobOutputVariableView>
    decreases entries.len(),
{
    if entries.len() == 0 {
        Map::empty()
    } else {
        let prefix = spec_collect_output(entries.drop_last());
        match entries.last().payload {
            EntryPayloadView::NotObject => prefix,
            EntryPayloadView::Fields(fields) => prefix.insert(
                entries.last().key,
                spec_variable_of_fields(fields),
            ),
        }
    }
}

/// The entry list produced from the decoded entries, in document order: one
/// pair per entry that is an object, each carrying its extracted variable.
pub open spec fn spec_collect_entry_list(entries: Seq<OutputEntryView>) -> Seq<
    (Seq<char>, JobOutputVariableView),
>
    decreases entries.len(),
{
    if entries.len() == 0 {
        Seq::empty()
    } else {
        let prefix = spec_collect_entry_list(entries.drop_last());
        match entries.last().payload {
            EntryPayloadView::NotObject => prefix,
            EntryPayloadView::Fields(fields) => prefix.push(
                (entries.last().key, spec_variable_of_fields(fields)),
            ),
        }
    }
}

/// The error returned where the output document itself cannot be decoded;
/// it carries the decoder's rendering of the fault.
#[derive(Debug, Clone, PartialEq, Eq)]
pub struct OutputParseError {
    pub message: String,
}

pub open spec fn spec_pair_views(entries: Seq<(String, JobOutputVariable)>) -> Seq<
    (Seq<char>, JobOutputVariableView),
> {
    entries.map_values(|p: (String, JobOutputVariable)| (p.0@, p.1@))
}

/// The last value listed under a key, if any.
pub open spec fn spec_assoc_lookup(entries: Seq<(Seq<char>, JobOutputVariableView)>, key: Seq<char>) -> Option<
    JobOutputVariableView,
>
    decreases entries.len(),
{
    if entries.len() == 0 {
        None
    } else if entries.last().0 == key {
        Some(entries.last().1)
    } else {
        spec_assoc_lookup(entries.drop_last(), key)
    }
}

pub open spec fn spec_assoc_to_map(entries: Seq<(Seq<char>, JobOutputVariableView)>) -> Map<
    Seq<char>,
    JobOutputVariableView,
>
    decreases entries.len(),
{
    if entries.len() == 0 {
        Map::empty()
    } else {
        spec_assoc_to_map(entries.drop_last()).insert(entries.last().0, entries.last().1)
    }
}

pub proof fn lemma_assoc_lookup_is_map(entries: Seq<(Seq<char>, JobOutputVariableView)>, key: Seq<char>)
    ensures
        spec_assoc_to_map(entries).contains_key(key) <==> spec_assoc_lookup(entries, key) is Some,
        spec_assoc_lookup(entries, key) matches Some(v) ==> spec_assoc_to_map(entries)[key] == v,
    decreases entries.len(),
{
    if entries.len() > 0 {
        lemma_assoc_lookup_is_map(entries.drop_last(), key);
    }
}

/// The typed mapping of output variables, keyed by the entry keys.
pub struct JobOutput {
    entries: Vec<(String, JobOutputVariable)>,
}

impl JobOutput {
    /// The entries in insertion order.
    pub closed spec fn spec_entries(&self) -> Seq<(Seq<char>, JobOutputVariableView)> {
        spec_pair_views(self.entries@)
    }

    pub closed spec fn view(&self) -> Map<Seq<char>, JobOutputVariableView> {
        spec_assoc_to_map(self.spec_entries())
    }

    pub fn new() -> (r: JobOutput)
        ensures
            r.spec_entries() == Seq::<(Seq<char>, JobOutputVariableView)>::empty(),
            r@ == Map::<Seq<char>, JobOutputVariableView>::empty(),
    {
        let r = JobOutput { entries: Vec::new() };
        proof {
            assert(r.spec_entries() =~= Seq::<(Seq<char>, JobOutputVariableView)>::empty());
        }
        r
    }

    pub fn insert(&mut self, key: String, variable: JobOutputVariable)
        ensures
            final(self).spec_entries() == old(self).spec_entries().push((key@, variable@)),
            final(self)@ == old(self)@.insert(key@, variable@),
    {
        let ghost key_view = key@;
        let ghost variable_view = variable@;
        self.entries.push((key, variable));
        proof {
            assert(self.spec_entries() =~= old(self).spec_entries().push((key_view, variable_view)));
            assert(self.spec_entries().drop_last() =~= old(self).spec_entries());
        }
    }

    /// The variable stored under the key, where one is: the last one inserted
    /// under it.
    pub fn get<'a>(&'a self, key: &str) -> (r: Option<&'a JobOutputVariable>)
        ensures
            match r {
                Some(v) => self@.contains_key(key@) && self@[key@] == v@,
                None => !self@.contains_key(key@),
            },
    {
        let ghost mapped = self.spec_entries();
        let mut i: usize = self.entries.len();
        assert(mapped.take(i as int) =~= mapped);
        while i > 0
            invariant
                0 <= i <= self.entries.len(),
                mapped == self.spec_entries(),
                mapped.len() == self.entries@.len(),
                spec_assoc_lookup(mapped, key@) == spec_assoc_lookup(mapped.take(i as int), key@),
            decreases i,
    {
            let j = i - 1;
            assert(mapped.take(i as int).last() == mapped[j as int]);
            assert(mapped.take(i as int).drop_last() =~= mapped.take(j as int));
            if str_eq(self.entries[j].0.as_str(), key) {
                proof {
                    lemma_assoc_lookup_is_map(mapped, key@);
                }
                return Some(&self.entries[j].1);
            }
            i = j;
        }
        proof {
            assert(mapped.take(0) =~= Seq::empty());
            lemma_assoc_lookup_is_map(mapped, key@);
        }
        None
    }

    /// How many entries the mapping holds, duplicate keys counted once each
    /// insertion.
    pub fn len(&self) -> (r: usize)
        ensures
            r == self.spec_entries().len(),
    {
        self.entries.len()
    }
}

/// Parses the JSON output document into the typed mapping. The result is an
/// error exactly where the document itself is not a JSON object; a top-level
/// entry whose value is not an object is dropped; every other entry yields a
/// variable extracted as `spec_variable_of_fields` states, later entries
/// winning over earlier ones of the same key.
pub fn serialize_job_output(json: &str) -> (r: Result<JobOutput, OutputParseError>)
    ensures
        r is Ok <==> spec_output_document(json@) is Some,
        r matches Ok(out) ==> ({
            &&& spec_output_document(json@) matches Some(doc)
            &&& out@ == spec_collect_output(doc)
            &&& out.spec_entries() == spec_collect_entry_list(doc)
        }),
{
    let entries = match parse_output_document(json) {
        Ok(entries) => entries,
        Err(message) => {
            return Err(OutputParseError { message });
        },
    };
    let ghost doc = spec_entry_views(entries@);
    let mut out = JobOutput::new();
    proof {
        assert(doc.take(0) =~= Seq::empty());
        assert(out.spec_entries() =~= spec_collect_entry_list(doc.take(0)));
    }
    let entries_len = entries.len();
    for i in 0..entries_len
        invariant
            entries_len == entries@.len(),
            doc == spec_entry_views(entries@),
            doc.len() == entries@.len(),
            out@ == spec_collect_output(doc.take(i as int)),
            out.spec_entries() == spec_collect_entry_list(doc.take(i as int)),
    {
        proof {
            assert(doc.take(i + 1int).drop_last() =~= doc.take(i as int));
            assert(doc.take(i + 1int).last() == doc[i as int]);
        }
        match &entries[i].payload {
            EntryPayload::NotObject => {},
            EntryPayload::Fields(fields) => {
                let variable = variable_of_fields(fields);
                out.insert(entries[i].key.clone(), variable);
            },
        }
    }
    proof {
        assert(doc.take(doc.len() as int) =~= doc);
    }
    Ok(out)
}

/// What str::to_uppercase returns for given characters: the decoding depends
/// on the characters alone.
pub uninterp spec fn spec_uppercase(s: Seq<char>) -> Seq<char>;

/// Relies on str::to_uppercase: the upper-case form of the text, a function
/// of its characters alone.
#[verifier::external_body]
fn to_uppercase_string(s: &str) -> (r: String)
    ensures
        r@ == spec_uppercase(s@),
{
    s.to_uppercase()
}

pub open spec fn spec_upper_entries(entries: Seq<(Seq<char>, JobOutputVariableView)>) -> Seq<
    (Seq<char>, JobOutputVariableView),
> {
    entries.map_values(|p: (Seq<char>, JobOutputVariableView)| (spec_uppercase(p.0), p.1))
}

impl JobOutput {
    /// The same mapping with every key upper-cased, later entries still
    /// winning where upper-casing makes two keys collide.
    pub fn uppercase_keys(&self) -> (r: JobOutput)
        ensures
            r.spec_entries() == spec_upper_entries(self.spec_entries()),
            r@ == spec_assoc_to_map(spec_upper_entries(self.spec_entries())),
    {
        let ghost source = self.spec_entries();
        let mut out = JobOutput::new();
        proof {
            assert(out.spec_entries() =~= spec_upper_entries(source.take(0)));
        }
        let entries_len = self.entries.len();
        for i in 0..entries_len
            invariant
                entries_len == self.entries@.len(),
                source == self.spec_entries(),
                source.len() == self.entries@.len(),
                out.spec_entries() == spec_upper_entries(source.take(i as int)),
        {
            let upper = to_uppercase_string(self.entries[i].0.as_str());
            let variable = &self.entries[i].1;
            let copy = JobOutputVariable {
                value: variable.value.clone(),
                sensitive: variable.sensitive,
                description: variable.description.clone(),
            };
            out.insert(upper, copy);
            proof {
                assert(source.take(i + 1int).drop_last() =~= source.take(i as int));
                assert(source.take(i + 1int).last() == source[i as int]);
                assert(spec_upper_entries(source.take(i + 1int)) =~= spec_upper_entries(
                    source.take(i as int),
                ).push((spec_uppercase(source[i as int].0), source[i as int].1)));
            }
        }
        proof {
            assert(source.take(source.len() as int) =~= source);
        }
        out
    }
}

pub open spec fn spec_hex_digit(n: int) -> char {
    if n == 0 { '0' } else if n == 1 { '1' } else if n == 2 { '2' } else if n == 3 { '3' }
    else if n == 4 { '4' } else if n == 5 { '5' } else if n == 6 { '6' } else if n == 7 { '7' }
    else if n == 8 { '8' } else if n == 9 { '9' } else if n == 10 { 'a' } else if n == 11 { 'b' }
    else if n == 12 { 'c' } else if n == 13 { 'd' } else if n == 14 { 'e' } else { 'f' }
}

fn hex_digit(n: u32) -> (r: char)
    requires
        n < 16,
    ensures
        r == spec_hex_digit(n as int),
{
    if n == 0 { '0' } else if n == 1 { '1' } else if n == 2 { '2' } else if n == 3 { '3' }
    else if n == 4 { '4' } else if n == 5 { '5' } else if n == 6 { '6' } else if n == 7 { '7' }
    else if n == 8 { '8' } else if n == 9 { '9' } else if n == 10 { 'a' } else if n == 11 { 'b' }
    else if n == 12 { 'c' } else if n == 13 { 'd' } else if n == 14 { 'e' } else { 'f' }
}

/// The JSON escaping of one character inside a string literal: quote and
/// backslash get a backslash, the common control characters their short
/// escapes, any other control character a four-digit escape, and everything
/// else stands as it is.
pub open spec fn spec_escape_char(c: char) -> Seq<char> {
    if c == '"' {
        seq!['\\', '"']
    } else if c == '\\' {
        seq!['\\', '\\']
    } else if c == '\n' {
        seq!['\\', 'n']
    } else if c == '\r' {
        seq!['\\', 'r']
    } else if c == '\t' {
        seq!['\\', 't']
    } else if (c as int) < 32 {
        seq!['\\', 'u', '0', '0', spec_hex_digit(c as int / 16), spec_hex_digit(c as int % 16)]
    } else {
        seq![c]
    }
}

pub open spec fn spec_json_escape(s: Seq<char>) -> Seq<char>
    decreases s.len(),
{
    if s.len() == 0 {
        Seq::empty()
    } else {
        spec_json_escape(s.drop_last()) + spec_escape_char(s.last())
    }
}

fn append_escaped_char(out: &mut String, c: char)
    ensures
        final(out)@ == old(out)@ + spec_escape_char(c),
{
    let ghost start = out@;
    if c == '"' {
        push_char(out, '\\');
        push_char(out, '"');
        assert(out@ =~= start + spec_escape_char(c));
    } else if c == '\\' {
        push_char(out, '\\');
        push_char(out, '\\');
        assert(out@ =~= start + spec_escape_char(c));
    } else if c == '\n' {
        push_char(out, '\\');
        push_char(out, 'n');
        assert(out@ =~= start + spec_escape_char(c));
    } else if c == '\r' {
        push_char(out, '\\');
        push_char(out, 'r');
        assert(out@ =~= start + spec_escape_char(c));
    } else if c == '\t' {
        push_char(out, '\\');
        push_char(out, 't');
        assert(out@ =~= start + spec_escape_char(c));
    } else if (c as u32) < 32 {
        push_char(out, '\\');
        push_char(out, 'u');
        push_char(out, '0');
        push_char(out, '0');
        push_char(out, hex_digit(c as u32 / 16));
        push_char(out, hex_digit(c as u32 % 16));
        assert(out@ =~= start + spec_escape_char(c));
    } else {
        push_char(out, c);
        assert(out@ =~= start + spec_escape_char(c));
    }
}

fn append_escaped(out: &mut String, s: &str)
    ensures
        final(out)@ == old(out)@ + spec_json_escape(s@),
{
    let ghost start = out@;
    let len = s.unicode_len();
    let mut i: usize = 0;
    proof {
        assert(s@.take(0) =~= Seq::empty());
        assert(out@ =~= start + spec_json_escape(s@.take(0)));
    }
    while i < len
        invariant
            len == s@.len(),
            0 <= i <= len,
            out@ == start + spec_json_escape(s@.take(i as int)),
        decreases len - i,
    {
        append_escaped_char(out, s.get_char(i));
        proof {
            assert(s@.take(i + 1int).drop_last() =~= s@.take(i as int));
            assert(s@.take(i + 1int).last() == s@[i as int]);
            assert(out@ =~= start + spec_json_escape(s@.take(i + 1int)));
        }
        i = i + 1;
    }
    proof {
        assert(s@.take(s@.len() as int) =~= s@);
    }
}

/// The JSON text of one variable: its three fields in declaration order,
/// string content escaped.
pub open spec fn spec_variable_json(v: JobOutputVariableView) -> Seq<char> {
    "{\"value\":\""@ + spec_json_escape(v.value) + "\",\"sensitive\":"@ + (if v.sensitive {
        "true"@
    } else {
        "false"@
    }) + ",\"description\":\""@ + spec_json_escape(v.description) + "\"}"@
}

pub open spec fn spec_entry_json(entry: (Seq<char>, JobOutputVariableView)) -> Seq<char> {
    "\""@ + spec_json_escape(entry.0) + "\":"@ + spec_variable_json(entry.1)
}

pub open spec fn spec_entries_json(entries: Seq<(Seq<char>, JobOutputVariableView)>) -> Seq<char>
    decreases entries.len(),
{
    if entries.len() == 0 {
        Seq::empty()
    } else if entries.len() == 1 {
        spec_entry_json(entries[0])
    } else {
        spec_entries_json(entries.drop_last()) + ","@ + spec_entry_json(entries.last())
    }
}

/// The JSON text of a whole mapping: the entries in order, comma separated,
/// inside one object.
pub open spec fn spec_output_json(entries: Seq<(Seq<char>, JobOutputVariableView)>) -> Seq<char> {
    "{"@ + spec_entries_json(entries) + "}"@
}

fn append_variable_json(out: &mut String, v: &JobOutputVariable)
    ensures
        final(out)@ == old(out)@ + spec_variable_json(v@),
{
    let ghost start = out@;
    out.append("{\"value\":\"");
    append_escaped(out, v.value.as_str());
    out.append("\",\"sensitive\":");
    if v.sensitive {
        out.append("true");
    } else {
        out.append("false");
    }
    out.append(",\"description\":\"");
    append_escaped(out, v.description.as_str());
    out.append("\"}");
    assert(out@ =~= start + spec_variable_json(v@));
}

impl JobOutput {
    /// Writes the mapping as one JSON object, exactly as `spec_output_json`
    /// states; this is the payload handed to the reporter.
    pub fn to_json_string(&self) -> (r: String)
        ensures
            r@ == spec_output_json(self.spec_entries()),
    {
        let ghost source = self.spec_entries();
        let mut out = String::new();
        out.append("{");
        let entries_len = self.entries.len();
        proof {
            assert(out@ =~= "{"@ + spec_entries_json(source.take(0)));
        }
        for i in 0..entries_len
            invariant
                entries_len == self.entries@.len(),
                source == self.spec_entries(),
                source.len() == self.entries@.len(),
                out@ == "{"@ + spec_entries_json(source.take(i as int)),
        {
            if i > 0 {
                out.append(",");
            }
            out.append("\"");
            append_escaped(&mut out, self.entries[i].0.as_str());
            out.append("\":");
            append_variable_json(&mut out, &self.entries[i].1);
            proof {
                assert(source.take(i + 1int).drop_last() =~= source.take(i as int));
                assert(source.take(i + 1int).last() == source[i as int]);
                if i == 0 {
                    assert(source.take(1int)[0] == source[0]);
                    assert(out@ =~= "{"@ + spec_entries_json(source.take(i + 1int)));
                } else {
                    assert(out@ =~= "{"@ + spec_entries_json(source.take(i + 1int)));
                }
            }
        }
        out.append("}");
        proof {
            assert(source.take(source.len() as int) =~= source);
            assert(out@ =~= spec_output_json(source));
        }
        out
    }
}

/// Default laws of the per-entry extraction: an entry without a boolean
/// `sensitive` field reads not sensitive, and one without a string
/// `description` field reads an empty description.
pub proof fn lemma_entry_defaults(fields: Seq<(Seq<char>, FieldValueView)>)
    ensures
        !(spec_field_lookup(fields, "sensitive"@) matches Some(FieldValueView::Flag(b)))
            ==> spec_variable_of_fields(fields).sensitive == false,
        !(spec_field_lookup(fields, "description"@) matches Some(FieldValueView::Text(t)))
            ==> spec_variable_of_fields(fields).description == Seq::<char>::empty(),
{
}

/// Dropping law: entries that are not objects leave the mapping exactly as
/// the object entries alone build it, so a malformed entry never affects its
/// siblings.
pub proof fn lemma_non_object_entries_dropped(entries: Seq<OutputEntryView>)
    ensures
        spec_collect_output(entries) == spec_collect_output(
            entries.filter(|e: OutputEntryView| e.payload is Fields),
        ),
    decreases entries.len(),
{
    reveal_with_fuel(Seq::filter, 2);
    let pred = |e: OutputEntryView| e.payload is Fields;
    if entries.len() == 0 {
        assert(entries.filter(pred) =~= Seq::empty());
    } else {
        lemma_non_object_entries_dropped(entries.drop_last());
        let prefix = entries.drop_last();
        if pred(entries.last()) {
            assert(entries.filter(pred) == prefix.filter(pred).push(entries.last()));
            assert(prefix.filter(pred).push(entries.last()).drop_last() =~= prefix.filter(pred));
            assert(prefix.filter(pred).push(entries.last()).last() == entries.last());
        } else {
            assert(entries.filter(pred) == prefix.filter(pred));
        }
    }
}

/// Preservation law: a well-formed entry that no later entry shadows ends up
/// in the mapping, its `value` kept verbatim where the field is a JSON
/// string, and equal to the canonical JSON text where the field is any other
/// non-boolean value.
pub proof fn lemma_value_preserved(entries: Seq<OutputEntryView>, i: int)
    requires
        0 <= i < entries.len(),
        entries[i].payload is Fields,
        forall|j: int| i < j < entries.len() ==> (#[trigger] entries[j]).key != entries[i].key,
    ensures
        spec_collect_output(entries).contains_key(entries[i].key),
        entries[i].payload matches EntryPayloadView::Fields(fields)
            ==> spec_collect_output(entries)[entries[i].key] == spec_variable_of_fields(fields),
        entries[i].payload matches EntryPayloadView::Fields(fields) ==> (spec_field_lookup(
            fields,
            "value"@,
        ) matches Some(FieldValueView::Text(t)) ==> spec_collect_output(entries)[entries[i].key].value
            == t),
        entries[i].payload matches EntryPayloadView::Fields(fields) ==> (spec_field_lookup(
            fields,
            "value"@,
        ) matches Some(FieldValueView::OtherJson(t)) ==> spec_collect_output(
            entries,
        )[entries[i].key].value == t),
    decreases entries.len(),
{
    if i == entries.len() - 1 {
    } else {
        let prefix = entries.drop_last();
        assert(prefix[i] == entries[i]);
        assert(forall|j: int| i < j < prefix.len() ==> (#[trigger] prefix[j]).key == entries[j].key);
        lemma_value_preserved(prefix, i);
        assert(entries.last() == entries[entries.len() - 1]);
        assert(entries.last().key != entries[i].key);
    }
}

} // verus!
