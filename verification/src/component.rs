//! Component v0.6 descriptor, QA and schema model, with the JSON shape each
//! value is written in, and the canonical CBOR codec.

use vstd::prelude::*;
use vstd::string::*;
use crate::codec::{cbor_decoded, cbor_of, from_cbor, to_canonical_cbor};
use crate::json::{json_views, member_views, opt_str_jv, push_member, str_array_json, str_array_jv, Json, JV};
use crate::plan::{opt_json_view, opt_view};
use crate::text::views;
use sha2::Digest;

verus! {

// ---------------------------------------------------------------------------
// CBOR
// ---------------------------------------------------------------------------

/// The canonical CBOR bytes of a value; empty when the value cannot be
/// written canonically (it holds a non-integer number).
pub open spec fn cbor_bytes_of(j: JV) -> Seq<u8> {
    match cbor_of(j) {
        Some(b) => b,
        None => Seq::empty(),
    }
}

/// Canonical CBOR bytes of a value; empty when it cannot be written canonically.
pub fn canonical_cbor_bytes(value: &Json) -> (r: Vec<u8>)
    ensures
        r@ == cbor_bytes_of(value@),
{
    match to_canonical_cbor(value) {
        Some(b) => b,
        None => Vec::new(),
    }
}

/// Reads a JSON value from CBOR bytes.
pub fn decode_cbor(bytes: &[u8]) -> (r: Result<Json, String>)
    ensures
        r is Ok <==> cbor_decoded(bytes@) is Ok,
        r matches Ok(j) ==> cbor_decoded(bytes@)->Ok_0 == j@,
        r matches Err(e) ==> cbor_decoded(bytes@)->Err_0 == e@,
{
    from_cbor(bytes)
}

/// The SHA-256 digest of bytes.
pub uninterp spec fn sha256_of(bytes: Seq<u8>) -> Seq<u8>;

/// `sha2::Sha256::digest`: claims that the digest is the one named by
/// `sha256_of`, and that it is 32 bytes long.
#[verifier::external_body]
fn sha256_digest(bytes: &[u8]) -> (r: Vec<u8>)
    ensures
        r@ == sha256_of(bytes@),
        r@.len() == 32,
{
    sha2::Sha256::digest(bytes).to_vec()
}

/// The lower-case hexadecimal digit of a value below 16.
pub open spec fn hex_digit(n: u8) -> char {
    if n < 10 {
        ((48 + n) as u8) as char
    } else {
        ((87 + n) as u8) as char
    }
}

/// The lower-case hexadecimal text of bytes, two digits per byte.
pub open spec fn hex_of(bytes: Seq<u8>) -> Seq<char>
    decreases bytes.len(),
{
    if bytes.len() == 0 {
        Seq::empty()
    } else {
        hex_of(bytes.drop_last()) + seq![
            hex_digit(bytes.last() / 16),
            hex_digit(bytes.last() % 16),
        ]
    }
}

fn hex_digit_exec(n: u8) -> (c: char)
    requires
        n < 16,
    ensures
        c == hex_digit(n),
{
    if n < 10 {
        (48 + n) as char
    } else {
        (87 + n) as char
    }
}

/// Writes bytes as lower-case hexadecimal text.
pub fn hex_lower(bytes: &[u8]) -> (r: String)
    ensures
        r@ == hex_of(bytes@),
{
    let mut r = String::new();
    let mut i: usize = 0;
    while i < bytes.len()
        invariant
            i <= bytes.len(),
            r@ == hex_of(bytes@.take(i as int)),
        decreases bytes.len() - i,
    {
        let b = bytes[i];
        assert(bytes@.take(i + 1).drop_last() == bytes@.take(i as int));
        assert(bytes@.take(i + 1).last() == b);
        crate::text::push_char(&mut r, hex_digit_exec(b / 16));
        crate::text::push_char(&mut r, hex_digit_exec(b % 16));
        assert(r@ =~= hex_of(bytes@.take(i + 1)));
        i += 1;
    }
    assert(bytes@.take(i as int) =~= bytes@);
    r
}

// ---------------------------------------------------------------------------
// Descriptor types
// ---------------------------------------------------------------------------

/// A translatable text, by key.
#[derive(Debug, Clone, PartialEq, Eq)]
pub struct I18nText {
    pub key: String,
}

pub open spec fn i18n_members(k: Seq<char>) -> Seq<(Seq<char>, JV)> {
    seq![("key"@, JV::Str(k))]
}

pub open spec fn i18n_jv(k: Seq<char>) -> JV {
    JV::Object(i18n_members(k))
}

impl I18nText {
    pub fn to_json(&self) -> (r: Json)
        ensures
            r@ == i18n_jv(self.key@),
    {
        let mut m: Vec<(String, Json)> = Vec::new();
        push_member(&mut m, "key", Json::Str(self.key.clone()));
        assert(member_views(m@) =~= i18n_members(self.key@));
        Json::Object(m)
    }
}

pub open spec fn opt_i18n_view(o: Option<I18nText>) -> Option<Seq<char>> {
    match o {
        Some(t) => Some(t.key@),
        None => None,
    }
}

/// A named operation with translatable title and description.
#[derive(Debug, Clone, PartialEq, Eq)]
pub struct OperationDescriptor {
    pub name: String,
    pub title: I18nText,
    pub description: I18nText,
}

pub open spec fn op_members(name: Seq<char>, title: Seq<char>, desc: Seq<char>) -> Seq<(Seq<char>, JV)> {
    seq![("name"@, JV::Str(name)), ("title"@, i18n_jv(title)), ("description"@, i18n_jv(desc))]
}

impl OperationDescriptor {
    pub fn to_json(&self) -> (r: Json)
        ensures
            r@ == JV::Object(op_members(self.name@, self.title.key@, self.description.key@)),
    {
        let mut m: Vec<(String, Json)> = Vec::new();
        push_member(&mut m, "name", Json::Str(self.name.clone()));
        push_member(&mut m, "title", self.title.to_json());
        push_member(&mut m, "description", self.description.to_json());
        assert(member_views(m@) =~= op_members(self.name@, self.title.key@, self.description.key@));
        Json::Object(m)
    }
}

/// The kind of a QA question.
#[derive(Debug)]
pub enum QuestionKind {
    Text,
    InlineJson { schema: Option<Json> },
    AssetRef { file_types: Vec<String>, base_path: Option<String>, check_exists: bool },
}

pub enum KindV {
    Text,
    InlineJson { schema: Option<JV> },
    AssetRef { file_types: Seq<Seq<char>>, base_path: Option<Seq<char>>, check_exists: bool },
}

impl View for QuestionKind {
    type V = KindV;

    open spec fn view(&self) -> KindV {
        match self {
            QuestionKind::Text => KindV::Text,
            QuestionKind::InlineJson { schema } => KindV::InlineJson { schema: opt_json_view(*schema) },
            QuestionKind::AssetRef { file_types, base_path, check_exists } => KindV::AssetRef {
                file_types: views(file_types@),
                base_path: opt_view(*base_path),
                check_exists: *check_exists,
            },
        }
    }
}

/// A kind is written as an object tagged by `type`.
pub open spec fn kind_members(k: KindV) -> Seq<(Seq<char>, JV)> {
    match k {
        KindV::Text => seq![("type"@, JV::Str("text"@))],
        KindV::InlineJson { schema } => seq![("type"@, JV::Str("inline_json"@))] + match schema {
            Some(s) => seq![("schema"@, s)],
            None => Seq::empty(),
        },
        KindV::AssetRef { file_types, base_path, check_exists } => seq![
            ("type"@, JV::Str("asset_ref"@)),
            ("file_types"@, str_array_jv(file_types)),
        ] + match base_path {
            Some(b) => seq![("base_path"@, JV::Str(b))],
            None => Seq::empty(),
        } + seq![("check_exists"@, JV::Bool(check_exists))],
    }
}

impl QuestionKind {
    pub fn to_json(&self) -> (r: Json)
        ensures
            r@ == JV::Object(kind_members(self@)),
    {
        let mut m: Vec<(String, Json)> = Vec::new();
        match self {
            QuestionKind::Text => {
                push_member(&mut m, "type", Json::from_str("text"));
            },
            QuestionKind::InlineJson { schema } => {
                push_member(&mut m, "type", Json::from_str("inline_json"));
                if let Some(s) = schema {
                    push_member(&mut m, "schema", s.duplicate());
                }
            },
            QuestionKind::AssetRef { file_types, base_path, check_exists } => {
                push_member(&mut m, "type", Json::from_str("asset_ref"));
                push_member(&mut m, "file_types", str_array_json(file_types));
                if let Some(b) = base_path {
                    push_member(&mut m, "base_path", Json::Str(b.clone()));
                }
                push_member(&mut m, "check_exists", Json::Bool(*check_exists));
            },
        }
        assert(member_views(m@) =~= kind_members(self@));
        Json::Object(m)
    }
}

/// A QA question.
#[derive(Debug)]
pub struct QaQuestionSpec {
    pub id: String,
    pub label: I18nText,
    pub help: Option<I18nText>,
    pub error: Option<I18nText>,
    pub kind: QuestionKind,
    pub required: bool,
    pub default: Option<Json>,
    pub skip_if: Option<Json>,
}

pub struct QuestionV {
    pub id: Seq<char>,
    pub label: Seq<char>,
    pub help: Option<Seq<char>>,
    pub error: Option<Seq<char>>,
    pub kind: KindV,
    pub required: bool,
    pub default: Option<JV>,
    pub skip_if: Option<JV>,
}

impl View for QaQuestionSpec {
    type V = QuestionV;

    open spec fn view(&self) -> QuestionV {
        QuestionV {
            id: self.id@,
            label: self.label.key@,
            help: opt_i18n_view(self.help),
            error: opt_i18n_view(self.error),
            kind: self.kind@,
            required: self.required,
            default: opt_json_view(self.default),
            skip_if: opt_json_view(self.skip_if),
        }
    }
}

pub open spec fn opt_member(k: Seq<char>, v: Option<JV>) -> Seq<(Seq<char>, JV)> {
    match v {
        Some(x) => seq![(k, x)],
        None => Seq::empty(),
    }
}

pub open spec fn opt_i18n_jv(o: Option<Seq<char>>) -> Option<JV> {
    match o {
        Some(k) => Some(i18n_jv(k)),
        None => None,
    }
}

/// A question is written with its absent optional members left out.
pub open spec fn question_members(q: QuestionV) -> Seq<(Seq<char>, JV)> {
    seq![("id"@, JV::Str(q.id)), ("label"@, i18n_jv(q.label))] + opt_member(
        "help"@,
        opt_i18n_jv(q.help),
    ) + opt_member("error"@, opt_i18n_jv(q.error)) + seq![
        ("kind"@, JV::Object(kind_members(q.kind))),
        ("required"@, JV::Bool(q.required)),
    ] + opt_member("default"@, q.default) + opt_member("skip_if"@, q.skip_if)
}

pub open spec fn question_jv(q: QuestionV) -> JV {
    JV::Object(question_members(q))
}

fn push_opt_member(m: &mut Vec<(String, Json)>, k: &str, v: Option<Json>)
    ensures
        member_views(final(m)@) == member_views(old(m)@) + opt_member(k@, opt_json_view(v)),
{
    match v {
        Some(x) => {
            push_member(m, k, x);
        },
        None => {
            assert(member_views(m@) =~= member_views(m@) + Seq::<(Seq<char>, JV)>::empty());
        },
    }
}

fn opt_i18n_json(o: &Option<I18nText>) -> (r: Option<Json>)
    ensures
        opt_json_view(r) == opt_i18n_jv(opt_i18n_view(*o)),
{
    match o {
        Some(t) => Some(t.to_json()),
        None => None,
    }
}

fn opt_dup(o: &Option<Json>) -> (r: Option<Json>)
    ensures
        opt_json_view(r) == opt_json_view(*o),
{
    match o {
        Some(j) => Some(j.duplicate()),
        None => None,
    }
}

impl QaQuestionSpec {
    pub fn to_json(&self) -> (r: Json)
        ensures
            r@ == question_jv(self@),
    {
        let mut m: Vec<(String, Json)> = Vec::new();
        push_member(&mut m, "id", Json::Str(self.id.clone()));
        push_member(&mut m, "label", self.label.to_json());
        let ghost m1 = member_views(m@);
        push_opt_member(&mut m, "help", opt_i18n_json(&self.help));
        push_opt_member(&mut m, "error", opt_i18n_json(&self.error));
        let ghost m2 = member_views(m@);
        push_member(&mut m, "kind", self.kind.to_json());
        push_member(&mut m, "required", Json::Bool(self.required));
        let ghost m3 = member_views(m@);
        push_opt_member(&mut m, "default", opt_dup(&self.default));
        push_opt_member(&mut m, "skip_if", opt_dup(&self.skip_if));
        assert(m1 =~= seq![("id"@, JV::Str(self@.id)), ("label"@, i18n_jv(self@.label))]);
        assert(member_views(m@) =~= question_members(self@));
        Json::Object(m)
    }
}

/// A QA specification for one mode.
#[derive(Debug)]
pub struct QaSpec {
    pub mode: String,
    pub title: I18nText,
    pub description: Option<I18nText>,
    pub questions: Vec<QaQuestionSpec>,
    pub defaults: Vec<(String, Json)>,
}

pub struct QaSpecV {
    pub mode: Seq<char>,
    pub title: Seq<char>,
    pub description: Option<Seq<char>>,
    pub questions: Seq<QuestionV>,
    pub defaults: Seq<(Seq<char>, JV)>,
}

pub open spec fn question_views(s: Seq<QaQuestionSpec>) -> Seq<QuestionV> {
    s.map_values(|q: QaQuestionSpec| q@)
}

impl View for QaSpec {
    type V = QaSpecV;

    open spec fn view(&self) -> QaSpecV {
        QaSpecV {
            mode: self.mode@,
            title: self.title.key@,
            description: opt_i18n_view(self.description),
            questions: question_views(self.questions@),
            defaults: member_views(self.defaults@),
        }
    }
}

pub open spec fn qa_spec_members(s: QaSpecV) -> Seq<(Seq<char>, JV)> {
    seq![
        ("mode"@, JV::Str(s.mode)),
        ("title"@, i18n_jv(s.title)),
        (
            "description"@,
            match s.description {
                Some(d) => i18n_jv(d),
                None => JV::Null,
            },
        ),
        ("questions"@, JV::Array(s.questions.map_values(|q: QuestionV| question_jv(q)))),
        ("defaults"@, JV::Object(s.defaults)),
    ]
}

pub open spec fn qa_spec_jv(s: QaSpecV) -> JV {
    JV::Object(qa_spec_members(s))
}

impl QaSpec {
    pub fn to_json(&self) -> (r: Json)
        ensures
            r@ == qa_spec_jv(self@),
    {
        let mut qs: Vec<Json> = Vec::new();
        let mut i: usize = 0;
        while i < self.questions.len()
            invariant
                i <= self.questions.len(),
                json_views(qs@) == question_views(self.questions@).map_values(
                    |q: QuestionV| question_jv(q),
                ).take(i as int),
            decreases self.questions.len() - i,
        {
            let q = self.questions[i].to_json();
            let ghost before = qs@;
            qs.push(q);
            assert(qs@.drop_last() == before);
            assert(json_views(qs@) =~= question_views(self.questions@).map_values(
                |q: QuestionV| question_jv(q),
            ).take(i + 1));
            i += 1;
        }
        assert(question_views(self.questions@).map_values(|q: QuestionV| question_jv(q)).take(
            i as int,
        ) =~= question_views(self.questions@).map_values(|q: QuestionV| question_jv(q)));
        let mut defaults: Vec<(String, Json)> = Vec::new();
        let mut j: usize = 0;
        proof {
            crate::json::lemma_member_views(self.defaults@);
        }
        while j < self.defaults.len()
            invariant
                j <= self.defaults.len(),
                member_views(defaults@) == member_views(self.defaults@).take(j as int),
            decreases self.defaults.len() - j,
        {
            proof {
                crate::json::lemma_member_views(self.defaults@);
            }
            push_member(&mut defaults, self.defaults[j].0.as_str(), self.defaults[j].1.duplicate());
            assert(member_views(defaults@) =~= member_views(self.defaults@).take(j + 1));
            j += 1;
        }
        assert(member_views(self.defaults@).take(j as int) =~= member_views(self.defaults@));
        let mut m: Vec<(String, Json)> = Vec::new();
        push_member(&mut m, "mode", Json::Str(self.mode.clone()));
        push_member(&mut m, "title", self.title.to_json());
        let d = match &self.description {
            Some(t) => t.to_json(),
            None => Json::Null,
        };
        push_member(&mut m, "description", d);
        push_member(&mut m, "questions", Json::Array(qs));
        push_member(&mut m, "defaults", Json::Object(defaults));
        assert(member_views(m@) =~= qa_spec_members(self@));
        Json::Object(m)
    }
}

// ---------------------------------------------------------------------------
// Schemas
// ---------------------------------------------------------------------------

/// A field of an object schema.
#[derive(Debug)]
pub struct SchemaField {
    pub required: bool,
    pub schema: SchemaIr,
}

/// A configuration or payload schema. Object fields are kept sorted by name,
/// without repeats.
#[derive(Debug)]
pub enum SchemaIr {
    String { title: I18nText, description: I18nText, format: Option<String>, secret: bool },
    Bool { title: I18nText, description: I18nText },
    Object {
        title: I18nText,
        description: I18nText,
        fields: Vec<(String, SchemaField)>,
        additional_properties: bool,
    },
}

pub enum SchemaV {
    String { title: Seq<char>, description: Seq<char>, format: Option<Seq<char>>, secret: bool },
    Bool { title: Seq<char>, description: Seq<char> },
    Object {
        title: Seq<char>,
        description: Seq<char>,
        fields: Seq<(Seq<char>, bool, SchemaV)>,
        additional_properties: bool,
    },
}

pub open spec fn schema_view(s: SchemaIr) -> SchemaV
    decreases s,
{
    match s {
        SchemaIr::String { title, description, format, secret } => SchemaV::String {
            title: title.key@,
            description: description.key@,
            format: opt_view(format),
            secret,
        },
        SchemaIr::Bool { title, description } => SchemaV::Bool {
            title: title.key@,
            description: description.key@,
        },
        SchemaIr::Object { title, description, fields, additional_properties } => SchemaV::Object {
            title: title.key@,
            description: description.key@,
            fields: field_views(fields@),
            additional_properties,
        },
    }
}

pub open spec fn field_views(f: Seq<(String, SchemaField)>) -> Seq<(Seq<char>, bool, SchemaV)>
    decreases f,
{
    if f.len() == 0 {
        Seq::empty()
    } else {
        field_views(f.drop_last()).push(
            (f.last().0@, f.last().1.required, schema_view(f.last().1.schema)),
        )
    }
}

impl View for SchemaIr {
    type V = SchemaV;

    open spec fn view(&self) -> SchemaV {
        schema_view(*self)
    }
}

pub proof fn lemma_field_views(f: Seq<(String, SchemaField)>)
    ensures
        field_views(f).len() == f.len(),
        forall|i: int|
            0 <= i < f.len() ==> #[trigger] field_views(f)[i] == (
                f[i].0@,
                f[i].1.required,
                schema_view(f[i].1.schema),
            ),
    decreases f.len(),
{
    if f.len() > 0 {
        lemma_field_views(f.drop_last());
    }
}

/// A schema is written as an object tagged by `type`.
pub open spec fn schema_jv(s: SchemaV) -> JV
    decreases s,
{
    match s {
        SchemaV::String { title, description, format, secret } => JV::Object(
            string_schema_members(title, description, format, secret),
        ),
        SchemaV::Bool { title, description } => JV::Object(bool_schema_members(title, description)),
        SchemaV::Object { title, description, fields, additional_properties } => JV::Object(
            object_schema_members(title, description, fields_jv(fields), additional_properties),
        ),
    }
}

pub open spec fn fields_jv(f: Seq<(Seq<char>, bool, SchemaV)>) -> Seq<(Seq<char>, JV)>
    decreases f,
{
    if f.len() == 0 {
        Seq::empty()
    } else {
        fields_jv(f.drop_last()).push(
            (f.last().0, JV::Object(field_members(f.last().1, schema_jv(f.last().2)))),
        )
    }
}

pub open spec fn field_members(required: bool, schema: JV) -> Seq<(Seq<char>, JV)> {
    seq![("required"@, JV::Bool(required)), ("schema"@, schema)]
}

pub open spec fn string_schema_members(
    title: Seq<char>,
    description: Seq<char>,
    format: Option<Seq<char>>,
    secret: bool,
) -> Seq<(Seq<char>, JV)> {
    seq![
        ("type"@, JV::Str("string"@)),
        ("title"@, i18n_jv(title)),
        ("description"@, i18n_jv(description)),
        ("format"@, opt_str_jv(format)),
        ("secret"@, JV::Bool(secret)),
    ]
}

pub open spec fn bool_schema_members(title: Seq<char>, description: Seq<char>) -> Seq<
    (Seq<char>, JV),
> {
    seq![
        ("type"@, JV::Str("bool"@)),
        ("title"@, i18n_jv(title)),
        ("description"@, i18n_jv(description)),
    ]
}

pub open spec fn object_schema_members(
    title: Seq<char>,
    description: Seq<char>,
    fields: Seq<(Seq<char>, JV)>,
    additional: bool,
) -> Seq<(Seq<char>, JV)> {
    seq![
        ("type"@, JV::Str("object"@)),
        ("title"@, i18n_jv(title)),
        ("description"@, i18n_jv(description)),
        ("fields"@, JV::Object(fields)),
        ("additional_properties"@, JV::Bool(additional)),
    ]
}

impl SchemaIr {
    pub fn to_json(&self) -> (r: Json)
        ensures
            r@ == schema_jv(self@),
        decreases self,
    {
        let mut m: Vec<(String, Json)> = Vec::new();
        match self {
            SchemaIr::String { title, description, format, secret } => {
                push_member(&mut m, "type", Json::from_str("string"));
                push_member(&mut m, "title", title.to_json());
                push_member(&mut m, "description", description.to_json());
                push_member(&mut m, "format", crate::json::opt_str_json(format));
                push_member(&mut m, "secret", Json::Bool(*secret));
                assert(member_views(m@) =~= string_schema_members(
                    title.key@,
                    description.key@,
                    opt_view(*format),
                    *secret,
                ));
            },
            SchemaIr::Bool { title, description } => {
                push_member(&mut m, "type", Json::from_str("bool"));
                push_member(&mut m, "title", title.to_json());
                push_member(&mut m, "description", description.to_json());
                assert(member_views(m@) =~= bool_schema_members(title.key@, description.key@));
            },
            SchemaIr::Object { title, description, fields, additional_properties } => {
                let mut fm: Vec<(String, Json)> = Vec::new();
                let mut i: usize = 0;
                proof {
                    lemma_field_views(fields@);
                }
                while i < fields.len()
                    invariant
                        i <= fields.len(),
                        *self == (SchemaIr::Object {
                            title: *title,
                            description: *description,
                            fields: *fields,
                            additional_properties: *additional_properties,
                        }),
                        field_views(fields@).len() == fields@.len(),
                        forall|k: int|
                            0 <= k < fields@.len() ==> #[trigger] field_views(fields@)[k] == (
                                fields@[k].0@,
                                fields@[k].1.required,
                                schema_view(fields@[k].1.schema),
                            ),
                        member_views(fm@) == fields_jv(field_views(fields@).take(i as int)),
                    decreases fields.len() - i,
                {
                    assert(decreases_to!(*self => (*self)->Object_fields));
                    let sj = fields[i].1.schema.to_json();
                    let mut fmem: Vec<(String, Json)> = Vec::new();
                    push_member(&mut fmem, "required", Json::Bool(fields[i].1.required));
                    push_member(&mut fmem, "schema", sj);
                    assert(member_views(fmem@) =~= field_members(fields@[i as int].1.required, sj@));
                    push_member(&mut fm, fields[i].0.as_str(), Json::Object(fmem));
                    assert(field_views(fields@).take(i + 1).drop_last() == field_views(fields@).take(
                        i as int,
                    ));
                    assert(member_views(fm@) =~= fields_jv(field_views(fields@).take(i + 1)));
                    i += 1;
                }
                assert(field_views(fields@).take(i as int) == field_views(fields@));
                push_member(&mut m, "type", Json::from_str("object"));
                push_member(&mut m, "title", title.to_json());
                push_member(&mut m, "description", description.to_json());
                push_member(&mut m, "fields", Json::Object(fm));
                push_member(&mut m, "additional_properties", Json::Bool(*additional_properties));
                assert(member_views(m@) =~= object_schema_members(
                    title.key@,
                    description.key@,
                    fields_jv(field_views(fields@)),
                    *additional_properties,
                ));
            },
        }
        Json::Object(m)
    }
}

/// The material whose digest is the schema hash.
pub open spec fn hash_material(input: SchemaV, output: SchemaV, config: SchemaV) -> JV {
    JV::Object(hash_members(input, output, config))
}

pub open spec fn hash_members(input: SchemaV, output: SchemaV, config: SchemaV) -> Seq<
    (Seq<char>, JV),
> {
    seq![
        ("input"@, schema_jv(input)),
        ("output"@, schema_jv(output)),
        ("config"@, schema_jv(config)),
    ]
}

/// Stable hash of an operation's schemas: the SHA-256 hex digest of the
/// canonical CBOR of `{input, output, config}`.
pub fn schema_hash(input: &SchemaIr, output: &SchemaIr, config: &SchemaIr) -> (r: String)
    ensures
        r@ == hex_of(sha256_of(cbor_bytes_of(hash_material(input@, output@, config@)))),
{
    let mut m: Vec<(String, Json)> = Vec::new();
    push_member(&mut m, "input", input.to_json());
    push_member(&mut m, "output", output.to_json());
    push_member(&mut m, "config", config.to_json());
    assert(member_views(m@) =~= hash_members(input@, output@, config@));
    let material = Json::Object(m);
    let bytes = canonical_cbor_bytes(&material);
    let digest = sha256_digest(bytes.as_slice());
    hex_lower(digest.as_slice())
}

/// A redaction rule for describe payloads.
#[derive(Debug, Clone, PartialEq, Eq)]
pub struct RedactionRule {
    pub path: String,
    pub strategy: String,
}

/// A provider's self-description.
#[derive(Debug)]
pub struct DescribePayload {
    pub provider: String,
    pub world: String,
    pub operations: Vec<OperationDescriptor>,
    pub input_schema: SchemaIr,
    pub output_schema: SchemaIr,
    pub config_schema: SchemaIr,
    pub redactions: Vec<RedactionRule>,
    pub schema_hash: String,
}

pub open spec fn op_jv(o: OperationDescriptor) -> JV {
    JV::Object(op_members(o.name@, o.title.key@, o.description.key@))
}

pub open spec fn redaction_members(path: Seq<char>, strategy: Seq<char>) -> Seq<(Seq<char>, JV)> {
    seq![("path"@, JV::Str(path)), ("strategy"@, JV::Str(strategy))]
}

pub open spec fn redaction_jv(r: RedactionRule) -> JV {
    JV::Object(redaction_members(r.path@, r.strategy@))
}

pub open spec fn describe_members(d: DescribePayload) -> Seq<(Seq<char>, JV)> {
    seq![
        ("provider"@, JV::Str(d.provider@)),
        ("world"@, JV::Str(d.world@)),
        ("operations"@, JV::Array(d.operations@.map_values(|o: OperationDescriptor| op_jv(o)))),
        ("input_schema"@, schema_jv(d.input_schema@)),
        ("output_schema"@, schema_jv(d.output_schema@)),
        ("config_schema"@, schema_jv(d.config_schema@)),
        ("redactions"@, JV::Array(d.redactions@.map_values(|r: RedactionRule| redaction_jv(r)))),
        ("schema_hash"@, JV::Str(d.schema_hash@)),
    ]
}

pub open spec fn describe_jv(d: DescribePayload) -> JV {
    JV::Object(describe_members(d))
}

impl DescribePayload {
    pub fn to_json(&self) -> (r: Json)
        ensures
            r@ == describe_jv(*self),
    {
        let mut ops: Vec<Json> = Vec::new();
        let mut i: usize = 0;
        while i < self.operations.len()
            invariant
                i <= self.operations.len(),
                json_views(ops@) == self.operations@.map_values(|o: OperationDescriptor| op_jv(o)).take(
                    i as int,
                ),
            decreases self.operations.len() - i,
        {
            let o = self.operations[i].to_json();
            let ghost before = ops@;
            ops.push(o);
            assert(ops@.drop_last() == before);
            assert(json_views(ops@) =~= self.operations@.map_values(
                |o: OperationDescriptor| op_jv(o),
            ).take(i + 1));
            i += 1;
        }
        assert(self.operations@.map_values(|o: OperationDescriptor| op_jv(o)).take(i as int)
            =~= self.operations@.map_values(|o: OperationDescriptor| op_jv(o)));
        let mut reds: Vec<Json> = Vec::new();
        let mut j: usize = 0;
        while j < self.redactions.len()
            invariant
                j <= self.redactions.len(),
                json_views(reds@) == self.redactions@.map_values(|r: RedactionRule| redaction_jv(r)).take(
                    j as int,
                ),
            decreases self.redactions.len() - j,
        {
            let mut rm: Vec<(String, Json)> = Vec::new();
            push_member(&mut rm, "path", Json::Str(self.redactions[j].path.clone()));
            push_member(&mut rm, "strategy", Json::Str(self.redactions[j].strategy.clone()));
            assert(member_views(rm@) =~= redaction_members(
                self.redactions@[j as int].path@,
                self.redactions@[j as int].strategy@,
            ));
            let ghost before = reds@;
            let rj = Json::Object(rm);
            reds.push(rj);
            assert(reds@.drop_last() == before);
            assert(json_views(reds@) == json_views(before).push(crate::json::json_view(rj)));
            assert(rj@ == redaction_jv(self.redactions@[j as int]));
            assert(json_views(reds@) =~= self.redactions@.map_values(
                |r: RedactionRule| redaction_jv(r),
            ).take(j + 1));
            j += 1;
        }
        assert(self.redactions@.map_values(|r: RedactionRule| redaction_jv(r)).take(j as int)
            =~= self.redactions@.map_values(|r: RedactionRule| redaction_jv(r)));
        let mut m: Vec<(String, Json)> = Vec::new();
        push_member(&mut m, "provider", Json::Str(self.provider.clone()));
        push_member(&mut m, "world", Json::Str(self.world.clone()));
        push_member(&mut m, "operations", Json::Array(ops));
        push_member(&mut m, "input_schema", self.input_schema.to_json());
        push_member(&mut m, "output_schema", self.output_schema.to_json());
        push_member(&mut m, "config_schema", self.config_schema.to_json());
        push_member(&mut m, "redactions", Json::Array(reds));
        push_member(&mut m, "schema_hash", Json::Str(self.schema_hash.clone()));
        assert(member_views(m@) =~= describe_members(*self));
        Json::Object(m)
    }
}

} // verus!
