//! A message-of-the-day settings family: two schema versions, their partial
//! forms, and a single registry element type wrapping the adapter for each
//! version. The family exercises the whole engine: strict serialization,
//! forward migration that adds a field, and backward migration that drops it.

use vstd::prelude::*;

use crate::error::{Error, ErrorView};
use crate::model::{
    BottlerocketSetting, GenerateResult, Model, NoMigration, SettingsModel, ValueConvert,
};
use crate::value::{lemma_object_views, opt_view, Value, ValueView};

verus! {

/// Version 1 of the message of the day: the message alone.
#[derive(Debug, PartialEq)]
pub struct MotdV1 {
    /// The message of the day.
    pub motd: String,
}

/// The mathematical shape of a [`MotdV1`].
pub struct MotdV1View {
    pub motd: Seq<char>,
}

impl View for MotdV1 {
    type V = MotdV1View;

    open spec fn view(&self) -> MotdV1View {
        MotdV1View { motd: self.motd@ }
    }
}

impl ValueConvert for MotdV1 {
    open spec fn spec_to_value(v: MotdV1View) -> ValueView {
        ValueView::Object(seq![("motd"@, ValueView::Text(v.motd))])
    }

    open spec fn spec_from_value(v: ValueView) -> Option<MotdV1View> {
        match v {
            ValueView::Object(fields) => if fields.len() == 1 && fields[0].0 == "motd"@
                && fields[0].1 is Text {
                Some(MotdV1View { motd: fields[0].1->Text_0 })
            } else {
                None
            },
            _ => None,
        }
    }

    proof fn lemma_serialize_round_trip(v: MotdV1View) {
    }

    fn to_value(self) -> (r: Value) {
        let ghost sv = self@;
        let mut fields: Vec<(String, Value)> = Vec::new();
        fields.push((String::from_str("motd"), Value::Text(self.motd)));
        proof {
            assert(fields@.len() == 1);
            assert(fields@[0].0@ == "motd"@);
            assert(fields@[0].1@ == ValueView::Text(sv.motd));
            lemma_object_views(fields, 0);
            assert(Value::object_views(fields, 0) =~= seq![("motd"@, ValueView::Text(sv.motd))]);
        }
        Value::Object(fields)
    }

    fn from_value(v: Value) -> (r: Option<Self>) {
        let ghost vv = v@;
        match v {
            Value::Object(fields) => {
                let ghost f = fields@;
                proof {
                    lemma_object_views(fields, 0);
                }
                if fields.len() != 1 {
                    return None;
                }
                let mut fields = fields;
                let pair = fields.pop().unwrap();
                proof {
                    assert(pair == f[0]);
                }
                let (key, val) = pair;
                if !(key == String::from_str("motd")) {
                    return None;
                }
                match val {
                    Value::Text(m) => Some(MotdV1 { motd: m }),
                    _ => None,
                }
            },
            _ => None,
        }
    }
}

/// The partially generated form of [`MotdV1`]: the message, or its explicit
/// absence as the null exchange value.
#[derive(Debug, PartialEq)]
pub struct MotdV1Partial {
    /// The message of the day, if one was generated already.
    pub motd: Option<String>,
}

/// The mathematical shape of a [`MotdV1Partial`].
pub struct MotdV1PartialView {
    pub motd: Option<Seq<char>>,
}

impl View for MotdV1Partial {
    type V = MotdV1PartialView;

    open spec fn view(&self) -> MotdV1PartialView {
        MotdV1PartialView { motd: opt_view(self.motd) }
    }
}

impl ValueConvert for MotdV1Partial {
    open spec fn spec_to_value(v: MotdV1PartialView) -> ValueView {
        ValueView::Object(seq![("motd"@, spec_opt_text(v.motd))])
    }

    open spec fn spec_from_value(v: ValueView) -> Option<MotdV1PartialView> {
        match v {
            ValueView::Object(fields) => if fields.len() == 1 && fields[0].0 == "motd"@ {
                match fields[0].1 {
                    ValueView::Text(m) => Some(MotdV1PartialView { motd: Some(m) }),
                    ValueView::Null => Some(MotdV1PartialView { motd: None }),
                    _ => None,
                }
            } else {
                None
            },
            _ => None,
        }
    }

    proof fn lemma_serialize_round_trip(v: MotdV1PartialView) {
    }

    fn to_value(self) -> (r: Value) {
        let ghost sv = self@;
        let payload = match self.motd {
            Some(m) => Value::Text(m),
            None => Value::Null,
        };
        let mut fields: Vec<(String, Value)> = Vec::new();
        fields.push((String::from_str("motd"), payload));
        proof {
            assert(fields@.len() == 1);
            assert(fields@[0].0@ == "motd"@);
            assert(fields@[0].1@ == spec_opt_text(sv.motd));
            lemma_object_views(fields, 0);
            assert(Value::object_views(fields, 0) =~= seq![("motd"@, spec_opt_text(sv.motd))]);
        }
        Value::Object(fields)
    }

    fn from_value(v: Value) -> (r: Option<Self>) {
        let ghost vv = v@;
        match v {
            Value::Object(fields) => {
                let ghost f = fields@;
                proof {
                    lemma_object_views(fields, 0);
                }
                if fields.len() != 1 {
                    return None;
                }
                let mut fields = fields;
                let pair = fields.pop().unwrap();
                proof {
                    assert(pair == f[0]);
                }
                let (key, val) = pair;
                if !(key == String::from_str("motd")) {
                    return None;
                }
                match val {
                    Value::Text(m) => Some(MotdV1Partial { motd: Some(m) }),
                    Value::Null => Some(MotdV1Partial { motd: None }),
                    _ => None,
                }
            },
            _ => None,
        }
    }
}

impl SettingsModel for MotdV1 {
    type PartialType = MotdV1Partial;

    type ForwardMigrationTarget = MotdV2;

    type BackwardMigrationTarget = NoMigration;

    open spec fn spec_version() -> Seq<char> {
        "v1"@
    }

    open spec fn spec_forward_version() -> Option<Seq<char>> {
        Some("v2"@)
    }

    open spec fn spec_backward_version() -> Option<Seq<char>> {
        None
    }

    open spec fn spec_set(current: Option<MotdV1View>, target: MotdV1View) -> Result<
        MotdV1View,
        ErrorView,
    > {
        Ok(target)
    }

    open spec fn spec_generate(
        existing_partial: Option<MotdV1PartialView>,
        dependent_settings: Option<ValueView>,
    ) -> Result<GenerateResult<MotdV1PartialView, MotdV1View>, ErrorView> {
        Ok(GenerateResult::Complete(Some(MotdV1View { motd: Seq::empty() })))
    }

    open spec fn spec_validate(value: MotdV1View, validated_settings: Option<ValueView>) -> Result<
        bool,
        ErrorView,
    > {
        Ok(true)
    }

    open spec fn spec_migrate_forward(value: MotdV1View) -> Result<MotdV2View, ErrorView> {
        Ok(MotdV2View { motd: value.motd, person: "Sean"@ })
    }

    open spec fn spec_migrate_backward(value: MotdV1View) -> Result<NoMigration, ErrorView> {
        Ok(NoMigration)
    }

    fn get_version() -> (r: &'static str) {
        "v1"
    }

    fn migrates_forward_to() -> (r: Option<&'static str>) {
        Some("v2")
    }

    fn migrates_backward_to() -> (r: Option<&'static str>) {
        None
    }

    fn set(current_value: Option<Self>, target: Self) -> (r: Result<Self, Error>) {
        Ok(target)
    }

    fn generate(
        existing_partial: Option<MotdV1Partial>,
        dependent_settings: Option<Value>,
    ) -> (r: Result<GenerateResult<MotdV1Partial, MotdV1>, Error>) {
        let out = MotdV1 { motd: String::new() };
        let g = GenerateResult::Complete(Some(out));
        proof {
            assert(g@ == GenerateResult::<MotdV1PartialView, MotdV1View>::Complete(
                Some(MotdV1View { motd: Seq::empty() }),
            ));
        }
        Ok(g)
    }

    fn validate(value: Self, validated_settings: Option<Value>) -> (r: Result<bool, Error>) {
        Ok(true)
    }

    /// The forward migration adds the person the message is from.
    fn migrate_forward(self) -> (r: Result<MotdV2, Error>) {
        Ok(MotdV2 { motd: self.motd, person: String::from_str("Sean") })
    }

    fn migrate_backward(self) -> (r: Result<NoMigration, Error>) {
        NoMigration::no_defined_migration()
    }
}

/// Version 2 of the message of the day: the message and the person it is
/// from.
#[derive(Debug, PartialEq)]
pub struct MotdV2 {
    /// The message of the day.
    pub motd: String,
    /// The person the message is from.
    pub person: String,
}

/// The mathematical shape of a [`MotdV2`].
pub struct MotdV2View {
    pub motd: Seq<char>,
    pub person: Seq<char>,
}

impl View for MotdV2 {
    type V = MotdV2View;

    open spec fn view(&self) -> MotdV2View {
        MotdV2View { motd: self.motd@, person: self.person@ }
    }
}

impl ValueConvert for MotdV2 {
    open spec fn spec_to_value(v: MotdV2View) -> ValueView {
        ValueView::Object(
            seq![("motd"@, ValueView::Text(v.motd)), ("person"@, ValueView::Text(v.person))],
        )
    }

    open spec fn spec_from_value(v: ValueView) -> Option<MotdV2View> {
        match v {
            ValueView::Object(fields) => if fields.len() == 2 && fields[0].0 == "motd"@
                && fields[0].1 is Text && fields[1].0 == "person"@ && fields[1].1 is Text {
                Some(MotdV2View { motd: fields[0].1->Text_0, person: fields[1].1->Text_0 })
            } else {
                None
            },
            _ => None,
        }
    }

    proof fn lemma_serialize_round_trip(v: MotdV2View) {
    }

    fn to_value(self) -> (r: Value) {
        let ghost sv = self@;
        let mut fields: Vec<(String, Value)> = Vec::new();
        fields.push((String::from_str("motd"), Value::Text(self.motd)));
        fields.push((String::from_str("person"), Value::Text(self.person)));
        proof {
            assert(fields@.len() == 2);
            assert(fields@[0].0@ == "motd"@);
            assert(fields@[0].1@ == ValueView::Text(sv.motd));
            assert(fields@[1].0@ == "person"@);
            assert(fields@[1].1@ == ValueView::Text(sv.person));
            lemma_object_views(fields, 0);
            assert(Value::object_views(fields, 0) =~= seq![
                ("motd"@, ValueView::Text(sv.motd)),
                ("person"@, ValueView::Text(sv.person)),
            ]);
        }
        Value::Object(fields)
    }

    fn from_value(v: Value) -> (r: Option<Self>) {
        let ghost vv = v@;
        match v {
            Value::Object(fields) => {
                let ghost f = fields@;
                proof {
                    lemma_object_views(fields, 0);
                }
                if fields.len() != 2 {
                    return None;
                }
                let mut fields = fields;
                let second = fields.pop().unwrap();
                let first = fields.pop().unwrap();
                proof {
                    assert(first == f[0]);
                    assert(second == f[1]);
                }
                let (first_key, first_val) = first;
                let (second_key, second_val) = second;
                if !(first_key == String::from_str("motd")) {
                    return None;
                }
                if !(second_key == String::from_str("person")) {
                    return None;
                }
                match (first_val, second_val) {
                    (Value::Text(m), Value::Text(p)) => Some(MotdV2 { motd: m, person: p }),
                    _ => None,
                }
            },
            _ => None,
        }
    }
}

/// The partially generated form of [`MotdV2`]: each field either present or
/// explicitly absent as the null exchange value.
#[derive(Debug, PartialEq)]
pub struct MotdV2Partial {
    /// The message of the day, if one was generated already.
    pub motd: Option<String>,
    /// The person the message is from, if one was generated already.
    pub person: Option<String>,
}

/// The mathematical shape of a [`MotdV2Partial`].
pub struct MotdV2PartialView {
    pub motd: Option<Seq<char>>,
    pub person: Option<Seq<char>>,
}

impl View for MotdV2Partial {
    type V = MotdV2PartialView;

    open spec fn view(&self) -> MotdV2PartialView {
        MotdV2PartialView { motd: opt_view(self.motd), person: opt_view(self.person) }
    }
}

/// The exchange shape of one optional text field.
pub open spec fn spec_opt_text(field: Option<Seq<char>>) -> ValueView {
    match field {
        Some(m) => ValueView::Text(m),
        None => ValueView::Null,
    }
}

/// The optional text a field of the given exchange shape reads back as.
pub open spec fn spec_read_opt_text(v: ValueView) -> Option<Option<Seq<char>>> {
    match v {
        ValueView::Text(m) => Some(Some(m)),
        ValueView::Null => Some(None),
        _ => None,
    }
}

impl ValueConvert for MotdV2Partial {
    open spec fn spec_to_value(v: MotdV2PartialView) -> ValueView {
        ValueView::Object(
            seq![("motd"@, spec_opt_text(v.motd)), ("person"@, spec_opt_text(v.person))],
        )
    }

    open spec fn spec_from_value(v: ValueView) -> Option<MotdV2PartialView> {
        match v {
            ValueView::Object(fields) => if fields.len() == 2 && fields[0].0 == "motd"@
                && fields[1].0 == "person"@ && spec_read_opt_text(fields[0].1) is Some
                && spec_read_opt_text(fields[1].1) is Some {
                Some(
                    MotdV2PartialView {
                        motd: spec_read_opt_text(fields[0].1)->Some_0,
                        person: spec_read_opt_text(fields[1].1)->Some_0,
                    },
                )
            } else {
                None
            },
            _ => None,
        }
    }

    proof fn lemma_serialize_round_trip(v: MotdV2PartialView) {
    }

    fn to_value(self) -> (r: Value) {
        let ghost sv = self@;
        let motd_payload = match self.motd {
            Some(m) => Value::Text(m),
            None => Value::Null,
        };
        let person_payload = match self.person {
            Some(p) => Value::Text(p),
            None => Value::Null,
        };
        let mut fields: Vec<(String, Value)> = Vec::new();
        fields.push((String::from_str("motd"), motd_payload));
        fields.push((String::from_str("person"), person_payload));
        proof {
            assert(fields@.len() == 2);
            assert(fields@[0].0@ == "motd"@);
            assert(fields@[0].1@ == spec_opt_text(sv.motd));
            assert(fields@[1].0@ == "person"@);
            assert(fields@[1].1@ == spec_opt_text(sv.person));
            lemma_object_views(fields, 0);
            assert(Value::object_views(fields, 0) =~= seq![
                ("motd"@, spec_opt_text(sv.motd)),
                ("person"@, spec_opt_text(sv.person)),
            ]);
        }
        Value::Object(fields)
    }

    fn from_value(v: Value) -> (r: Option<Self>) {
        let ghost vv = v@;
        match v {
            Value::Object(fields) => {
                let ghost f = fields@;
                proof {
                    lemma_object_views(fields, 0);
                }
                if fields.len() != 2 {
                    return None;
                }
                let mut fields = fields;
                let second = fields.pop().unwrap();
                let first = fields.pop().unwrap();
                proof {
                    assert(first == f[0]);
                    assert(second == f[1]);
                }
                let (first_key, first_val) = first;
                let (second_key, second_val) = second;
                if !(first_key == String::from_str("motd")) {
                    return None;
                }
                if !(second_key == String::from_str("person")) {
                    return None;
                }
                let motd = match first_val {
                    Value::Text(m) => Some(m),
                    Value::Null => None,
                    _ => {
                        return None;
                    },
                };
                let person = match second_val {
                    Value::Text(p) => Some(p),
                    Value::Null => None,
                    _ => {
                        return None;
                    },
                };
                Some(MotdV2Partial { motd, person })
            },
            _ => None,
        }
    }
}

impl SettingsModel for MotdV2 {
    type PartialType = MotdV2Partial;

    type ForwardMigrationTarget = NoMigration;

    type BackwardMigrationTarget = MotdV1;

    open spec fn spec_version() -> Seq<char> {
        "v2"@
    }

    open spec fn spec_forward_version() -> Option<Seq<char>> {
        None
    }

    open spec fn spec_backward_version() -> Option<Seq<char>> {
        Some("v1"@)
    }

    open spec fn spec_set(current: Option<MotdV2View>, target: MotdV2View) -> Result<
        MotdV2View,
        ErrorView,
    > {
        Ok(target)
    }

    open spec fn spec_generate(
        existing_partial: Option<MotdV2PartialView>,
        dependent_settings: Option<ValueView>,
    ) -> Result<GenerateResult<MotdV2PartialView, MotdV2View>, ErrorView> {
        Ok(
            GenerateResult::Complete(
                Some(MotdV2View { motd: Seq::empty(), person: Seq::empty() }),
            ),
        )
    }

    open spec fn spec_validate(value: MotdV2View, validated_settings: Option<ValueView>) -> Result<
        bool,
        ErrorView,
    > {
        Ok(true)
    }

    open spec fn spec_migrate_forward(value: MotdV2View) -> Result<NoMigration, ErrorView> {
        Ok(NoMigration)
    }

    open spec fn spec_migrate_backward(value: MotdV2View) -> Result<MotdV1View, ErrorView> {
        Ok(MotdV1View { motd: value.motd })
    }

    fn get_version() -> (r: &'static str) {
        "v2"
    }

    fn migrates_forward_to() -> (r: Option<&'static str>) {
        None
    }

    fn migrates_backward_to() -> (r: Option<&'static str>) {
        Some("v1")
    }

    fn set(current_value: Option<Self>, target: Self) -> (r: Result<Self, Error>) {
        Ok(target)
    }

    fn generate(
        existing_partial: Option<MotdV2Partial>,
        dependent_settings: Option<Value>,
    ) -> (r: Result<GenerateResult<MotdV2Partial, MotdV2>, Error>) {
        let out = MotdV2 { motd: String::new(), person: String::new() };
        let g = GenerateResult::Complete(Some(out));
        proof {
            assert(g@ == GenerateResult::<MotdV2PartialView, MotdV2View>::Complete(
                Some(MotdV2View { motd: Seq::empty(), person: Seq::empty() }),
            ));
        }
        Ok(g)
    }

    fn validate(value: Self, validated_settings: Option<Value>) -> (r: Result<bool, Error>) {
        Ok(true)
    }

    fn migrate_forward(self) -> (r: Result<NoMigration, Error>) {
        NoMigration::no_defined_migration()
    }

    /// The backward migration drops the person and keeps the message.
    fn migrate_backward(self) -> (r: Result<MotdV1, Error>) {
        Ok(MotdV1 { motd: self.motd })
    }
}

/// The registry element for the message-of-the-day family: the adapter of one
/// of its versions.
pub enum MotdModel {
    /// The adapter for version 1.
    V1(BottlerocketSetting<MotdV1>),
    /// The adapter for version 2.
    V2(BottlerocketSetting<MotdV2>),
}

impl MotdModel {
    /// The registry entries for the family, oldest version first.
    pub fn models() -> (r: Vec<MotdModel>)
        ensures
            r@.len() == 2,
            r@[0].spec_version() == "v1"@,
            r@[1].spec_version() == "v2"@,
    {
        vec![
            MotdModel::V1(*BottlerocketSetting::model()),
            MotdModel::V2(*BottlerocketSetting::model()),
        ]
    }
}

impl Model for MotdModel {
    open spec fn spec_version(&self) -> Seq<char> {
        match self {
            MotdModel::V1(m) => m.spec_version(),
            MotdModel::V2(m) => m.spec_version(),
        }
    }

    open spec fn spec_forward_version(&self) -> Option<Seq<char>> {
        match self {
            MotdModel::V1(m) => m.spec_forward_version(),
            MotdModel::V2(m) => m.spec_forward_version(),
        }
    }

    open spec fn spec_backward_version(&self) -> Option<Seq<char>> {
        match self {
            MotdModel::V1(m) => m.spec_backward_version(),
            MotdModel::V2(m) => m.spec_backward_version(),
        }
    }

    open spec fn spec_set(&self, current: Option<ValueView>, target: ValueView) -> Result<
        ValueView,
        ErrorView,
    > {
        match self {
            MotdModel::V1(m) => m.spec_set(current, target),
            MotdModel::V2(m) => m.spec_set(current, target),
        }
    }

    open spec fn spec_generate(
        &self,
        existing_partial: Option<ValueView>,
        dependent_settings: Option<ValueView>,
    ) -> Result<GenerateResult<ValueView, ValueView>, ErrorView> {
        match self {
            MotdModel::V1(m) => m.spec_generate(existing_partial, dependent_settings),
            MotdModel::V2(m) => m.spec_generate(existing_partial, dependent_settings),
        }
    }

    open spec fn spec_validate(
        &self,
        value: ValueView,
        validated_settings: Option<ValueView>,
    ) -> Result<bool, ErrorView> {
        match self {
            MotdModel::V1(m) => m.spec_validate(value, validated_settings),
            MotdModel::V2(m) => m.spec_validate(value, validated_settings),
        }
    }

    open spec fn spec_migrate_forward(&self, current: ValueView) -> Result<ValueView, ErrorView> {
        match self {
            MotdModel::V1(m) => m.spec_migrate_forward(current),
            MotdModel::V2(m) => m.spec_migrate_forward(current),
        }
    }

    open spec fn spec_migrate_backward(&self, current: ValueView) -> Result<ValueView, ErrorView> {
        match self {
            MotdModel::V1(m) => m.spec_migrate_backward(current),
            MotdModel::V2(m) => m.spec_migrate_backward(current),
        }
    }

    fn get_version(&self) -> (r: String) {
        match self {
            MotdModel::V1(m) => m.get_version(),
            MotdModel::V2(m) => m.get_version(),
        }
    }

    fn migrates_forward_to(&self) -> (r: Option<String>) {
        match self {
            MotdModel::V1(m) => m.migrates_forward_to(),
            MotdModel::V2(m) => m.migrates_forward_to(),
        }
    }

    fn migrates_backward_to(&self) -> (r: Option<String>) {
        match self {
            MotdModel::V1(m) => m.migrates_backward_to(),
            MotdModel::V2(m) => m.migrates_backward_to(),
        }
    }

    fn set(&self, current: Option<Value>, target: Value) -> (r: Result<Value, Error>) {
        match self {
            MotdModel::V1(m) => m.set(current, target),
            MotdModel::V2(m) => m.set(current, target),
        }
    }

    fn generate(
        &self,
        existing_partial: Option<Value>,
        dependent_settings: Option<Value>,
    ) -> (r: Result<GenerateResult<Value, Value>, Error>) {
        match self {
            MotdModel::V1(m) => m.generate(existing_partial, dependent_settings),
            MotdModel::V2(m) => m.generate(existing_partial, dependent_settings),
        }
    }

    fn validate(&self, value: Value, validated_settings: Option<Value>) -> (r: Result<
        bool,
        Error,
    >) {
        match self {
            MotdModel::V1(m) => m.validate(value, validated_settings),
            MotdModel::V2(m) => m.validate(value, validated_settings),
        }
    }

    fn migrate_forward(&self, current: Value) -> (r: Result<Value, Error>) {
        match self {
            MotdModel::V1(m) => m.migrate_forward(current),
            MotdModel::V2(m) => m.migrate_forward(current),
        }
    }

    fn migrate_backward(&self, current: Value) -> (r: Result<Value, Error>) {
        match self {
            MotdModel::V1(m) => m.migrate_backward(current),
            MotdModel::V2(m) => m.migrate_backward(current),
        }
    }
}

} // verus!
