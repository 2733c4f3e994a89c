//! The schema contracts: the serialization capability every schema version
//! implements, the typed settings-model contract, and the type-erased model
//! adapter that the registry stores.

use vstd::prelude::*;

use crate::error::{Error, ErrorView};
use crate::value::{lemma_object_views, opt_view, res_view, Value, ValueView};
use core::marker::PhantomData;

verus! {

/// The serialization capability: a type that crosses the type-erasure
/// boundary by converting to and from the exchange value. Deserialization is
/// strict: an exchange value that does not read back exactly (an unknown or
/// missing field, a wrong shape) is a mismatch, never a best effort.
pub trait ValueConvert: Sized + View {
    /// The exchange shape a value of this type serializes to.
    spec fn spec_to_value(v: Self::V) -> ValueView;

    /// The value a well-formed exchange shape reads back as; `None` is a
    /// mismatch.
    spec fn spec_from_value(v: ValueView) -> Option<Self::V>;

    /// A value's own fields round-trip through serialization without loss.
    proof fn lemma_serialize_round_trip(v: Self::V)
        ensures
            Self::spec_from_value(Self::spec_to_value(v)) == Some(v),
    ;

    fn to_value(self) -> (r: Value)
        ensures
            r@ == Self::spec_to_value(self@),
    ;

    fn from_value(v: Value) -> (r: Option<Self>)
        ensures
            (r matches Some(t) ==> Self::spec_from_value(v@) == Some(t@)),
            (r is None ==> Self::spec_from_value(v@) is None),
    ;
}

/// The outcome of the generation operation: either generation is incomplete
/// and needs more externally supplied settings, or it succeeded. Either
/// payload may be absent.
#[derive(Debug, PartialEq)]
pub enum GenerateResult<Partial, Complete> {
    /// Generation is incomplete and requires more externally supplied
    /// settings.
    NeedsData(Option<Partial>),
    /// Generation succeeded.
    Complete(Option<Complete>),
}

impl<Partial: View, Complete: View> View for GenerateResult<Partial, Complete> {
    type V = GenerateResult<Partial::V, Complete::V>;

    open spec fn view(&self) -> Self::V {
        match *self {
            GenerateResult::NeedsData(p) => GenerateResult::NeedsData(opt_view(p)),
            GenerateResult::Complete(c) => GenerateResult::Complete(opt_view(c)),
        }
    }
}

/// Type erasure of a generation outcome: each typed payload replaced by its
/// exchange shape.
pub open spec fn spec_erase<Partial: ValueConvert, Complete: ValueConvert>(
    g: GenerateResult<Partial::V, Complete::V>,
) -> GenerateResult<ValueView, ValueView> {
    match g {
        GenerateResult::NeedsData(p) => GenerateResult::NeedsData(
            match p {
                Some(x) => Some(Partial::spec_to_value(x)),
                None => None,
            },
        ),
        GenerateResult::Complete(c) => GenerateResult::Complete(
            match c {
                Some(x) => Some(Complete::spec_to_value(x)),
                None => None,
            },
        ),
    }
}

impl<Partial: ValueConvert, Complete: ValueConvert> GenerateResult<Partial, Complete> {
    /// Replaces every typed payload with its exchange value, crossing the
    /// type-erasure boundary once.
    pub fn erase_type(self) -> (r: GenerateResult<Value, Value>)
        ensures
            r@ == spec_erase::<Partial, Complete>(self@),
    {
        match self {
            GenerateResult::NeedsData(p) => GenerateResult::NeedsData(
                match p {
                    Some(x) => Some(x.to_value()),
                    None => None,
                },
            ),
            GenerateResult::Complete(c) => GenerateResult::Complete(
                match c {
                    Some(x) => Some(x.to_value()),
                    None => None,
                },
            ),
        }
    }
}

/// An optional exchange shape, with absence rendered as null.
pub open spec fn spec_value_or_null(o: Option<ValueView>) -> ValueView {
    match o {
        Some(v) => v,
        None => ValueView::Null,
    }
}

/// The exchange shape of an erased generation outcome: one tag naming the
/// variant, carrying the payload or null.
pub open spec fn spec_generate_result_value(g: GenerateResult<ValueView, ValueView>) -> ValueView {
    match g {
        GenerateResult::NeedsData(p) => ValueView::Object(
            seq![("NeedsData"@, spec_value_or_null(p))],
        ),
        GenerateResult::Complete(c) => ValueView::Object(
            seq![("Complete"@, spec_value_or_null(c))],
        ),
    }
}

impl GenerateResult<Value, Value> {
    /// Renders an erased generation outcome as a single exchange value, one
    /// tag naming the variant, carrying the payload or null.
    pub fn into_value(self) -> (r: Value)
        ensures
            r@ == spec_generate_result_value(self@),
    {
        match self {
            GenerateResult::NeedsData(p) => {
                let inner = match p {
                    Some(v) => v,
                    None => Value::Null,
                };
                let ghost iv = inner@;
                let mut fields: Vec<(String, Value)> = Vec::new();
                fields.push((String::from_str("NeedsData"), inner));
                proof {
                    lemma_object_views(fields, 0);
                    assert(Value::object_views(fields, 0) =~= seq![("NeedsData"@, iv)]);
                }
                Value::Object(fields)
            },
            GenerateResult::Complete(c) => {
                let inner = match c {
                    Some(v) => v,
                    None => Value::Null,
                };
                let ghost iv = inner@;
                let mut fields: Vec<(String, Value)> = Vec::new();
                fields.push((String::from_str("Complete"), inner));
                proof {
                    lemma_object_views(fields, 0);
                    assert(Value::object_views(fields, 0) =~= seq![("Complete"@, iv)]);
                }
                Value::Object(fields)
            },
        }
    }
}

/// The contract every concrete settings schema version implements: identity,
/// the optional neighbor in each migration direction, and the typed
/// operations. "No neighbor" is a plain data fact (`None`), not a marker
/// type; a schema whose link is absent must never have that direction's
/// migration invoked, which the migration preconditions enforce.
pub trait SettingsModel: ValueConvert {
    /// The partially generated form of this schema.
    type PartialType: ValueConvert;

    /// The schema this version migrates forward to; [`NoMigration`] for a
    /// terminal version.
    type ForwardMigrationTarget: ValueConvert;

    /// The schema this version migrates backward to; [`NoMigration`] for a
    /// terminal version.
    type BackwardMigrationTarget: ValueConvert;

    /// The stable version identifier; unique across one registry.
    spec fn spec_version() -> Seq<char>;

    /// The forward neighbor's identifier; `None` marks the end of the chain.
    spec fn spec_forward_version() -> Option<Seq<char>>;

    /// The backward neighbor's identifier; `None` marks the end of the chain.
    spec fn spec_backward_version() -> Option<Seq<char>>;

    /// What `set` decides, at the view level.
    spec fn spec_set(current: Option<Self::V>, target: Self::V) -> Result<Self::V, ErrorView>;

    /// What `generate` decides, at the view level.
    spec fn spec_generate(
        existing_partial: Option<<Self::PartialType as View>::V>,
        dependent_settings: Option<ValueView>,
    ) -> Result<GenerateResult<<Self::PartialType as View>::V, Self::V>, ErrorView>;

    /// What `validate` decides, at the view level.
    spec fn spec_validate(value: Self::V, validated_settings: Option<ValueView>) -> Result<
        bool,
        ErrorView,
    >;

    /// What the forward migration produces, at the view level.
    spec fn spec_migrate_forward(value: Self::V) -> Result<
        <Self::ForwardMigrationTarget as View>::V,
        ErrorView,
    >;

    /// What the backward migration produces, at the view level.
    spec fn spec_migrate_backward(value: Self::V) -> Result<
        <Self::BackwardMigrationTarget as View>::V,
        ErrorView,
    >;

    fn get_version() -> (r: &'static str)
        ensures
            r@ == Self::spec_version(),
    ;

    fn migrates_forward_to() -> (r: Option<&'static str>)
        ensures
            opt_view(r) == Self::spec_forward_version(),
    ;

    fn migrates_backward_to() -> (r: Option<&'static str>)
        ensures
            opt_view(r) == Self::spec_backward_version(),
    ;

    /// Validates and normalizes a proposed new value given the optional
    /// existing one; returns the value to persist.
    fn set(current_value: Option<Self>, target: Self) -> (r: Result<Self, Error>)
        ensures
            match (r, Self::spec_set(opt_view(current_value), target@)) {
                (Ok(t), Ok(m)) => t@ == m,
                (Err(e), Err(m)) => e@ == m,
                _ => false,
            },
    ;

    /// Produces a default or derived value, possibly needing more external
    /// data.
    fn generate(
        existing_partial: Option<Self::PartialType>,
        dependent_settings: Option<Value>,
    ) -> (r: Result<GenerateResult<Self::PartialType, Self>, Error>)
        ensures
            match (r, Self::spec_generate(
                opt_view(existing_partial),
                opt_view(dependent_settings),
            )) {
                (Ok(g), Ok(m)) => g@ == m,
                (Err(e), Err(m)) => e@ == m,
                _ => false,
            },
    ;

    /// Checks a value, optionally against other settings, without mutating
    /// anything.
    fn validate(value: Self, validated_settings: Option<Value>) -> (r: Result<bool, Error>)
        ensures
            match (r, Self::spec_validate(value@, opt_view(validated_settings))) {
                (Ok(b), Ok(m)) => b == m,
                (Err(e), Err(m)) => e@ == m,
                _ => false,
            },
    ;

    /// The consuming transformation to the forward neighbor. Calling it on a
    /// terminal version is a contract violation, which the precondition
    /// excludes: callers check the link first.
    fn migrate_forward(self) -> (r: Result<Self::ForwardMigrationTarget, Error>)
        requires
            Self::spec_forward_version() is Some,
        ensures
            match (r, Self::spec_migrate_forward(self@)) {
                (Ok(t), Ok(m)) => t@ == m,
                (Err(e), Err(m)) => e@ == m,
                _ => false,
            },
    ;

    /// The consuming transformation to the backward neighbor; symmetric to
    /// `migrate_forward`.
    fn migrate_backward(self) -> (r: Result<Self::BackwardMigrationTarget, Error>)
        requires
            Self::spec_backward_version() is Some,
        ensures
            match (r, Self::spec_migrate_backward(self@)) {
                (Ok(t), Ok(m)) => t@ == m,
                (Err(e), Err(m)) => e@ == m,
                _ => false,
            },
    ;
}

/// The distinguished "no migration defined" terminal marker. It stands in
/// for the absent neighbor type of a schema at the end of its chain, and
/// serializes as the null exchange value, as a fieldless marker does.
#[derive(Debug, Clone, Copy, PartialEq, Eq, Structural, Default)]
pub struct NoMigration;

impl NoMigration {
    /// The explicit outcome a terminal schema returns from the migration it
    /// never performs.
    pub fn no_defined_migration() -> (r: Result<NoMigration, Error>)
        ensures
            r == Ok::<NoMigration, Error>(NoMigration),
    {
        Ok(NoMigration)
    }
}

impl View for NoMigration {
    type V = NoMigration;

    open spec fn view(&self) -> NoMigration {
        NoMigration
    }
}

impl ValueConvert for NoMigration {
    open spec fn spec_to_value(v: NoMigration) -> ValueView {
        ValueView::Null
    }

    open spec fn spec_from_value(v: ValueView) -> Option<NoMigration> {
        if v is Null {
            Some(NoMigration)
        } else {
            None
        }
    }

    proof fn lemma_serialize_round_trip(v: NoMigration) {
    }

    fn to_value(self) -> (r: Value)
        ensures
            r@ == Self::spec_to_value(self@),
    {
        Value::Null
    }

    fn from_value(v: Value) -> (r: Option<Self>)
        ensures
            (r matches Some(t) ==> Self::spec_from_value(v@) == Some(t@)),
            (r is None ==> Self::spec_from_value(v@) is None),
    {
        match v {
            Value::Null => Some(NoMigration),
            _ => None,
        }
    }
}

/// The uniform, type-erased interface the registry stores: the same operation
/// set as [`SettingsModel`], with every typed parameter and result replaced
/// by the exchange value.
pub trait Model {
    /// The version identifier of the wrapped schema.
    spec fn spec_version(&self) -> Seq<char>;

    /// The forward neighbor's identifier, if any.
    spec fn spec_forward_version(&self) -> Option<Seq<char>>;

    /// The backward neighbor's identifier, if any.
    spec fn spec_backward_version(&self) -> Option<Seq<char>>;

    /// What `set` decides, over exchange shapes.
    spec fn spec_set(&self, current: Option<ValueView>, target: ValueView) -> Result<
        ValueView,
        ErrorView,
    >;

    /// What `generate` decides, over exchange shapes.
    spec fn spec_generate(
        &self,
        existing_partial: Option<ValueView>,
        dependent_settings: Option<ValueView>,
    ) -> Result<GenerateResult<ValueView, ValueView>, ErrorView>;

    /// What `validate` decides, over exchange shapes.
    spec fn spec_validate(&self, value: ValueView, validated_settings: Option<ValueView>) -> Result<
        bool,
        ErrorView,
    >;

    /// What one forward migration step produces, over exchange shapes.
    spec fn spec_migrate_forward(&self, current: ValueView) -> Result<ValueView, ErrorView>;

    /// What one backward migration step produces, over exchange shapes.
    spec fn spec_migrate_backward(&self, current: ValueView) -> Result<ValueView, ErrorView>;

    fn get_version(&self) -> (r: String)
        ensures
            r@ == self.spec_version(),
    ;

    fn migrates_forward_to(&self) -> (r: Option<String>)
        ensures
            opt_view(r) == self.spec_forward_version(),
    ;

    fn migrates_backward_to(&self) -> (r: Option<String>)
        ensures
            opt_view(r) == self.spec_backward_version(),
    ;

    fn set(&self, current: Option<Value>, target: Value) -> (r: Result<Value, Error>)
        ensures
            res_view(r) == self.spec_set(opt_view(current), target@),
    ;

    fn generate(
        &self,
        existing_partial: Option<Value>,
        dependent_settings: Option<Value>,
    ) -> (r: Result<GenerateResult<Value, Value>, Error>)
        ensures
            res_view(r) == self.spec_generate(
                opt_view(existing_partial),
                opt_view(dependent_settings),
            ),
    ;

    fn validate(&self, value: Value, validated_settings: Option<Value>) -> (r: Result<bool, Error>)
        ensures
            res_view(r) == self.spec_validate(value@, opt_view(validated_settings)),
    ;

    fn migrate_forward(&self, current: Value) -> (r: Result<Value, Error>)
        requires
            self.spec_forward_version() is Some,
        ensures
            res_view(r) == self.spec_migrate_forward(current@),
    ;

    fn migrate_backward(&self, current: Value) -> (r: Result<Value, Error>)
        requires
            self.spec_backward_version() is Some,
        ensures
            res_view(r) == self.spec_migrate_backward(current@),
    ;
}

/// Strict deserialization against the schema registered under `version`,
/// with a mismatch reported as the distinct serialization error.
pub open spec fn spec_read<C: ValueConvert>(v: ValueView, version: Seq<char>) -> Result<
    C::V,
    ErrorView,
> {
    match C::spec_from_value(v) {
        Some(m) => Ok(m),
        None => Err(ErrorView::SerializationMismatch { version }),
    }
}

/// Reads an exchange value as a `C`, reporting a mismatch against the schema
/// version named `version`.
fn read_as<C: ValueConvert>(v: Value, version: &str) -> (r: Result<C, Error>)
    ensures
        match (r, spec_read::<C>(v@, version@)) {
            (Ok(t), Ok(m)) => t@ == m,
            (Err(e), Err(m)) => e@ == m,
            _ => false,
        },
{
    match C::from_value(v) {
        Some(t) => Ok(t),
        None => Err(Error::SerializationMismatch { version: String::from_str(version) }),
    }
}

/// The type-erased adapter for one concrete schema version: a stateless
/// proxy that deserializes in, dispatches to the typed schema, and
/// serializes out. It performs no semantic logic of its own.
pub struct BottlerocketSetting<T> {
    pub(crate) phantom: PhantomData<T>,
}

impl<T> BottlerocketSetting<T> {
    /// A boxed adapter for the schema version `T`.
    pub fn model() -> Box<Self> {
        Box::new(BottlerocketSetting { phantom: PhantomData })
    }
}

impl<T: SettingsModel> Model for BottlerocketSetting<T> {
    open spec fn spec_version(&self) -> Seq<char> {
        T::spec_version()
    }

    open spec fn spec_forward_version(&self) -> Option<Seq<char>> {
        T::spec_forward_version()
    }

    open spec fn spec_backward_version(&self) -> Option<Seq<char>> {
        T::spec_backward_version()
    }

    open spec fn spec_set(&self, current: Option<ValueView>, target: ValueView) -> Result<
        ValueView,
        ErrorView,
    > {
        match current {
            Some(cv) => match spec_read::<T>(cv, T::spec_version()) {
                Err(e) => Err(e),
                Ok(c) => match spec_read::<T>(target, T::spec_version()) {
                    Err(e) => Err(e),
                    Ok(t) => match T::spec_set(Some(c), t) {
                        Err(e) => Err(e),
                        Ok(out) => Ok(T::spec_to_value(out)),
                    },
                },
            },
            None => match spec_read::<T>(target, T::spec_version()) {
                Err(e) => Err(e),
                Ok(t) => match T::spec_set(None, t) {
                    Err(e) => Err(e),
                    Ok(out) => Ok(T::spec_to_value(out)),
                },
            },
        }
    }

    open spec fn spec_generate(
        &self,
        existing_partial: Option<ValueView>,
        dependent_settings: Option<ValueView>,
    ) -> Result<GenerateResult<ValueView, ValueView>, ErrorView> {
        match existing_partial {
            Some(pv) => match spec_read::<T::PartialType>(pv, T::spec_version()) {
                Err(e) => Err(e),
                Ok(p) => match T::spec_generate(Some(p), dependent_settings) {
                    Err(e) => Err(e),
                    Ok(g) => Ok(spec_erase::<T::PartialType, T>(g)),
                },
            },
            None => match T::spec_generate(None, dependent_settings) {
                Err(e) => Err(e),
                Ok(g) => Ok(spec_erase::<T::PartialType, T>(g)),
            },
        }
    }

    open spec fn spec_validate(
        &self,
        value: ValueView,
        validated_settings: Option<ValueView>,
    ) -> Result<bool, ErrorView> {
        match spec_read::<T>(value, T::spec_version()) {
            Err(e) => Err(e),
            Ok(t) => T::spec_validate(t, validated_settings),
        }
    }

    open spec fn spec_migrate_forward(&self, current: ValueView) -> Result<ValueView, ErrorView> {
        match spec_read::<T>(current, T::spec_version()) {
            Err(e) => Err(e),
            Ok(t) => match T::spec_migrate_forward(t) {
                Err(e) => Err(e),
                Ok(out) => Ok(<T::ForwardMigrationTarget as ValueConvert>::spec_to_value(out)),
            },
        }
    }

    open spec fn spec_migrate_backward(&self, current: ValueView) -> Result<ValueView, ErrorView> {
        match spec_read::<T>(current, T::spec_version()) {
            Err(e) => Err(e),
            Ok(t) => match T::spec_migrate_backward(t) {
                Err(e) => Err(e),
                Ok(out) => Ok(<T::BackwardMigrationTarget as ValueConvert>::spec_to_value(out)),
            },
        }
    }

    fn get_version(&self) -> (r: String) {
        String::from_str(T::get_version())
    }

    fn migrates_forward_to(&self) -> (r: Option<String>) {
        match T::migrates_forward_to() {
            Some(s) => Some(String::from_str(s)),
            None => None,
        }
    }

    fn migrates_backward_to(&self) -> (r: Option<String>) {
        match T::migrates_backward_to() {
            Some(s) => Some(String::from_str(s)),
            None => None,
        }
    }

    fn set(&self, current: Option<Value>, target: Value) -> (r: Result<Value, Error>) {
        let version = T::get_version();
        let current_typed = match current {
            Some(cv) => match read_as::<T>(cv, version) {
                Err(e) => {
                    return Err(e);
                },
                Ok(c) => Some(c),
            },
            None => None,
        };
        match read_as::<T>(target, version) {
            Err(e) => Err(e),
            Ok(t) => match T::set(current_typed, t) {
                Err(e) => Err(e),
                Ok(out) => Ok(out.to_value()),
            },
        }
    }

    fn generate(
        &self,
        existing_partial: Option<Value>,
        dependent_settings: Option<Value>,
    ) -> (r: Result<GenerateResult<Value, Value>, Error>) {
        let version = T::get_version();
        let partial_typed = match existing_partial {
            Some(pv) => match read_as::<T::PartialType>(pv, version) {
                Err(e) => {
                    return Err(e);
                },
                Ok(p) => Some(p),
            },
            None => None,
        };
        match T::generate(partial_typed, dependent_settings) {
            Err(e) => Err(e),
            Ok(g) => Ok(g.erase_type()),
        }
    }

    fn validate(&self, value: Value, validated_settings: Option<Value>) -> (r: Result<
        bool,
        Error,
    >) {
        let version = T::get_version();
        match read_as::<T>(value, version) {
            Err(e) => Err(e),
            Ok(t) => T::validate(t, validated_settings),
        }
    }

    fn migrate_forward(&self, current: Value) -> (r: Result<Value, Error>) {
        let version = T::get_version();
        match read_as::<T>(current, version) {
            Err(e) => Err(e),
            Ok(t) => match t.migrate_forward() {
                Err(e) => Err(e),
                Ok(out) => Ok(out.to_value()),
            },
        }
    }

    fn migrate_backward(&self, current: Value) -> (r: Result<Value, Error>) {
        let version = T::get_version();
        match read_as::<T>(current, version) {
            Err(e) => Err(e),
            Ok(t) => match t.migrate_backward() {
                Err(e) => Err(e),
                Ok(out) => Ok(out.to_value()),
            },
        }
    }
}

/// A model for a version whose data representation did not change relative
/// to its neighbors: setting accepts the proposed value, validation accepts
/// every value, generation completes empty-handed, and each migration hands
/// the exchange value on untouched. Useful for pure version renumbering and
/// for laying out chains whose data needs no rewriting.
#[derive(Debug, PartialEq)]
pub struct PassthroughModel {
    /// The version this model is registered under.
    pub version: String,
    /// The forward neighbor's version, if any.
    pub forward: Option<String>,
    /// The backward neighbor's version, if any.
    pub backward: Option<String>,
}

impl Model for PassthroughModel {
    open spec fn spec_version(&self) -> Seq<char> {
        self.version@
    }

    open spec fn spec_forward_version(&self) -> Option<Seq<char>> {
        opt_view(self.forward)
    }

    open spec fn spec_backward_version(&self) -> Option<Seq<char>> {
        opt_view(self.backward)
    }

    open spec fn spec_set(&self, current: Option<ValueView>, target: ValueView) -> Result<
        ValueView,
        ErrorView,
    > {
        Ok(target)
    }

    open spec fn spec_generate(
        &self,
        existing_partial: Option<ValueView>,
        dependent_settings: Option<ValueView>,
    ) -> Result<GenerateResult<ValueView, ValueView>, ErrorView> {
        Ok(GenerateResult::Complete(None))
    }

    open spec fn spec_validate(
        &self,
        value: ValueView,
        validated_settings: Option<ValueView>,
    ) -> Result<bool, ErrorView> {
        Ok(true)
    }

    open spec fn spec_migrate_forward(&self, current: ValueView) -> Result<ValueView, ErrorView> {
        Ok(current)
    }

    open spec fn spec_migrate_backward(&self, current: ValueView) -> Result<ValueView, ErrorView> {
        Ok(current)
    }

    fn get_version(&self) -> (r: String) {
        self.version.clone()
    }

    fn migrates_forward_to(&self) -> (r: Option<String>) {
        match &self.forward {
            Some(s) => Some(s.clone()),
            None => None,
        }
    }

    fn migrates_backward_to(&self) -> (r: Option<String>) {
        match &self.backward {
            Some(s) => Some(s.clone()),
            None => None,
        }
    }

    fn set(&self, current: Option<Value>, target: Value) -> (r: Result<Value, Error>) {
        Ok(target)
    }

    fn generate(
        &self,
        existing_partial: Option<Value>,
        dependent_settings: Option<Value>,
    ) -> (r: Result<GenerateResult<Value, Value>, Error>) {
        Ok(GenerateResult::Complete(None))
    }

    fn validate(&self, value: Value, validated_settings: Option<Value>) -> (r: Result<
        bool,
        Error,
    >) {
        Ok(true)
    }

    fn migrate_forward(&self, current: Value) -> (r: Result<Value, Error>) {
        Ok(current)
    }

    fn migrate_backward(&self, current: Value) -> (r: Result<Value, Error>) {
        Ok(current)
    }
}

} // verus!
