//! The settings extension: an immutable registry of model adapters keyed by
//! version, the migration router that finds a route between two versions by
//! walking neighbor links, and the migration executor that folds an exchange
//! value through each step of a route.

use vstd::prelude::*;

use crate::cli::{GenerateCommand, MigrateCommand, Proto1Command, SetCommand, ValidateCommand};
use crate::error::{Error, ErrorView};
use crate::model::{spec_generate_result_value, GenerateResult, Model};
use crate::value::{opt_view, res_view, Value, ValueView};

verus! {

/// One direction of travel along a migration chain.
#[derive(Debug, Clone, Copy, PartialEq, Eq, Structural)]
pub enum MigrationDirection {
    Forward,
    Backward,
}

/// The neighbor a model names in the given direction.
pub open spec fn spec_neighbor<M: Model>(m: M, direction: MigrationDirection) -> Option<
    Seq<char>,
> {
    match direction {
        MigrationDirection::Forward => m.spec_forward_version(),
        MigrationDirection::Backward => m.spec_backward_version(),
    }
}

/// A settings extension: a registry of type-erased model adapters, one per
/// supported version, built once from a caller-supplied list and read-only
/// afterward.
pub struct SettingsExtension<M> {
    models: Vec<M>,
}

impl<M> View for SettingsExtension<M> {
    type V = Seq<M>;

    closed spec fn view(&self) -> Seq<M> {
        self.models@
    }
}

/// The first model among `models[i..]` registered under `version`.
pub open spec fn spec_lookup_from<M: Model>(models: Seq<M>, version: Seq<char>, i: int) -> Option<
    M,
>
    decreases models.len() - i,
{
    if i < 0 || i >= models.len() {
        None
    } else if models[i].spec_version() == version {
        Some(models[i])
    } else {
        spec_lookup_from(models, version, i + 1)
    }
}

/// Whether some model before position `j` is registered under the same
/// version as the model at `j`.
pub open spec fn spec_collides_before<M: Model>(models: Seq<M>, j: int) -> bool {
    exists|i: int|
        0 <= i < j && #[trigger] models[i].spec_version() == models[j].spec_version()
}

/// No two registered models share a version identifier.
pub open spec fn spec_versions_unique<M: Model>(models: Seq<M>) -> bool {
    forall|i: int, j: int|
        0 <= i < j < models.len() ==> #[trigger] models[i].spec_version()
            != #[trigger] models[j].spec_version()
}

/// The version of the first model that reuses an earlier model's version,
/// scanning from position `j`.
pub open spec fn spec_first_duplicate_from<M: Model>(models: Seq<M>, j: int) -> Option<Seq<char>>
    decreases models.len() - j,
{
    if j < 0 || j >= models.len() {
        None
    } else if spec_collides_before(models, j) {
        Some(models[j].spec_version())
    } else {
        spec_first_duplicate_from(models, j + 1)
    }
}

/// The version of the first duplicate registration, if any.
pub open spec fn spec_first_duplicate<M: Model>(models: Seq<M>) -> Option<Seq<char>> {
    spec_first_duplicate_from(models, 0)
}

impl<M: Model> SettingsExtension<M> {
    /// The model registered under `version`, if any.
    pub open spec fn spec_lookup(self, version: Seq<char>) -> Option<M> {
        spec_lookup_from(self@, version, 0)
    }

    /// Builds the registry from an ordered list of adapters, keyed by each
    /// adapter's version. A duplicate version identifier is a construction
    /// error, never a silent overwrite.
    pub fn with_models(models: Vec<M>) -> (r: Result<Self, Error>)
        ensures
            (r matches Ok(ext) ==> ext@ == models@ && spec_versions_unique(models@)),
            (r matches Err(e) ==> {
                &&& !spec_versions_unique(models@)
                &&& spec_first_duplicate(models@) matches Some(dup) && e@ == (
                ErrorView::DuplicateVersion { version: dup })
            }),
    {
        let n = models.len();
        let mut j: usize = 0;
        while j < n
            invariant
                n == models@.len(),
                0 <= j <= n,
                forall|j2: int| 0 <= j2 < j ==> !spec_collides_before(models@, j2),
                spec_first_duplicate(models@) == spec_first_duplicate_from(models@, j as int),
            decreases n - j,
        {
            let version_j = models[j].get_version();
            let mut i: usize = 0;
            while i < j
                invariant
                    n == models@.len(),
                    0 <= i <= j < n,
                    version_j@ == models@[j as int].spec_version(),
                    spec_first_duplicate(models@) == spec_first_duplicate_from(
                        models@,
                        j as int,
                    ),
                    forall|i2: int|
                        0 <= i2 < i ==> #[trigger] models@[i2].spec_version() != models@[
                            j as int].spec_version(),
                decreases j - i,
            {
                if models[i].get_version() == version_j {
                    proof {
                        assert(models@[i as int].spec_version() == models@[
                        j as int].spec_version());
                        assert(spec_collides_before(models@, j as int));
                        assert(spec_first_duplicate_from(models@, j as int) == Some(
                            models@[j as int].spec_version(),
                        ));
                        assert(!spec_versions_unique(models@));
                        assert((Error::DuplicateVersion { version: version_j })@ == (
                        ErrorView::DuplicateVersion { version: models@[j as int].spec_version() }));
                    }
                    return Err(Error::DuplicateVersion { version: version_j });
                }
                i += 1;
            }
            proof {
                assert(!spec_collides_before(models@, j as int));
            }
            j += 1;
        }
        proof {
            assert(spec_versions_unique(models@)) by {
                assert forall|i: int, j2: int| 0 <= i < j2 < models@.len() implies #[trigger] models@[
                    i].spec_version() != #[trigger] models@[j2].spec_version() by {
                    assert(!spec_collides_before(models@, j2));
                }
            }
        }
        Ok(SettingsExtension { models })
    }

    /// The registered model for `version`, or nothing when the version is
    /// unknown.
    pub fn model(&self, version: &str) -> (r: Option<&M>)
        ensures
            (r matches Some(m) ==> self.spec_lookup(version@) == Some(*m)),
            (r is None ==> self.spec_lookup(version@) is None),
    {
        let wanted = String::from_str(version);
        let n = self.models.len();
        let mut i: usize = 0;
        while i < n
            invariant
                n == self@.len(),
                0 <= i <= n,
                wanted@ == version@,
                spec_lookup_from(self@, version@, 0) == spec_lookup_from(
                    self@,
                    version@,
                    i as int,
                ),
            decreases n - i,
        {
            if self.models[i].get_version() == wanted {
                return Some(&self.models[i]);
            }
            i += 1;
        }
        None
    }

    /// The number of steps the chain walk takes from `from` to `target` in
    /// one direction, following neighbor links through registered models
    /// only, and giving up once `fuel` links have been followed. The walk is
    /// bounded so that even a mistakenly cyclic chain cannot be walked
    /// forever.
    pub open spec fn spec_walk(
        self,
        from: Seq<char>,
        target: Seq<char>,
        direction: MigrationDirection,
        fuel: nat,
    ) -> Option<nat>
        decreases fuel,
    {
        match self.spec_lookup(from) {
            None => None,
            Some(m) => if from == target {
                Some(0)
            } else if fuel == 0 {
                None
            } else {
                match spec_neighbor(m, direction) {
                    None => None,
                    Some(next) => match self.spec_walk(next, target, direction, (fuel - 1) as nat) {
                        None => None,
                        Some(k) => Some(k + 1),
                    },
                }
            },
        }
    }

    /// The route connecting `start` to `target`: the empty route when the two
    /// are the same version, else as many forward steps as the forward walk
    /// takes, else as many backward steps as the backward walk takes, else
    /// nothing. Forward search takes priority.
    pub open spec fn spec_find_route(self, start: Seq<char>, target: Seq<char>) -> Option<
        Seq<MigrationDirection>,
    > {
        if start == target {
            Some(Seq::empty())
        } else {
            match self.spec_walk(start, target, MigrationDirection::Forward, self@.len()) {
                Some(n) => Some(Seq::new(n, |i: int| MigrationDirection::Forward)),
                None => match self.spec_walk(
                    start,
                    target,
                    MigrationDirection::Backward,
                    self@.len(),
                ) {
                    Some(n) => Some(Seq::new(n, |i: int| MigrationDirection::Backward)),
                    None => None,
                },
            }
        }
    }

    /// Walks the chain from `starting_version` in one direction and counts
    /// the steps to `target_version`.
    fn walk_steps(
        &self,
        starting_version: &str,
        target_version: &str,
        direction: MigrationDirection,
    ) -> (r: Option<usize>)
        ensures
            (r matches Some(n) ==> self.spec_walk(
                starting_version@,
                target_version@,
                direction,
                self@.len(),
            ) == Some(n as nat)),
            (r is None ==> self.spec_walk(
                starting_version@,
                target_version@,
                direction,
                self@.len(),
            ) is None),
    {
        let target = String::from_str(target_version);
        let mut current = String::from_str(starting_version);
        let total = self.models.len();
        let mut steps: usize = 0;
        loop
            invariant
                total == self@.len(),
                0 <= steps <= total,
                target@ == target_version@,
                self.spec_walk(starting_version@, target_version@, direction, total as nat)
                    == match self.spec_walk(
                    current@,
                    target_version@,
                    direction,
                    (total - steps) as nat,
                ) {
                    None => None,
                    Some(k) => Some((k + steps) as nat),
                },
            decreases total - steps,
        {
            let m = match self.model(current.as_str()) {
                None => {
                    return None;
                },
                Some(m) => m,
            };
            if current == target {
                return Some(steps);
            }
            if steps == total {
                return None;
            }
            let next = match (match direction {
                MigrationDirection::Forward => m.migrates_forward_to(),
                MigrationDirection::Backward => m.migrates_backward_to(),
            }) {
                None => {
                    return None;
                },
                Some(next) => next,
            };
            current = next;
            steps += 1;
        }
    }

    /// The route to migrate data from `starting_version` to
    /// `target_version`, or nothing when no migration connects them.
    pub fn find_migration_route(&self, starting_version: &str, target_version: &str) -> (r: Option<
        Vec<MigrationDirection>,
    >)
        ensures
            (r matches Some(route) ==> self.spec_find_route(starting_version@, target_version@)
                == Some(route@)),
            (r is None ==> self.spec_find_route(starting_version@, target_version@) is None),
    {
        let start = String::from_str(starting_version);
        let target = String::from_str(target_version);
        if start == target {
            let route: Vec<MigrationDirection> = Vec::new();
            proof {
                assert(route@ =~= Seq::<MigrationDirection>::empty());
            }
            return Some(route);
        }
        if let Some(n) = self.walk_steps(starting_version, target_version,
            MigrationDirection::Forward) {
            return Some(repeat_direction(MigrationDirection::Forward, n));
        }
        match self.walk_steps(starting_version, target_version, MigrationDirection::Backward) {
            Some(n) => Some(repeat_direction(MigrationDirection::Backward, n)),
            None => None,
        }
    }

    /// What folding `value` along `route`, starting at the model registered
    /// under `from`, produces. Each step goes to the current model's neighbor
    /// in the step's direction; a neighbor missing from the registry is an
    /// internal consistency fault, and a failing step is wrapped with the
    /// sub-step it belongs to.
    pub open spec fn spec_fold(
        self,
        value: ValueView,
        from: Seq<char>,
        route: Seq<MigrationDirection>,
    ) -> Result<ValueView, ErrorView>
        decreases route.len(),
    {
        if route.len() == 0 {
            Ok(value)
        } else {
            match self.spec_lookup(from) {
                None => Err(ErrorView::InternalConsistencyFault { version: from }),
                Some(m) => match spec_neighbor(m, route[0]) {
                    None => Err(ErrorView::InternalConsistencyFault { version: from }),
                    Some(next) => if self.spec_lookup(next) is None {
                        Err(ErrorView::InternalConsistencyFault { version: next })
                    } else {
                        match (match route[0] {
                            MigrationDirection::Forward => m.spec_migrate_forward(value),
                            MigrationDirection::Backward => m.spec_migrate_backward(value),
                        }) {
                            Err(e) => Err(
                                ErrorView::MigrationStepFailure {
                                    from,
                                    to: next,
                                    cause: Box::new(e),
                                },
                            ),
                            Ok(migrated) => self.spec_fold(migrated, next, route.drop_first()),
                        }
                    },
                },
            }
        }
    }

    /// What migrating `value` from `start` to `target` produces: an unknown
    /// starting version is reported before any routing, an absent route is
    /// reported as the missing migration path, and otherwise the value is
    /// folded along the route.
    pub open spec fn spec_perform_migration(
        self,
        value: ValueView,
        start: Seq<char>,
        target: Seq<char>,
    ) -> Result<ValueView, ErrorView> {
        if self.spec_lookup(start) is None {
            Err(ErrorView::UnknownVersion { version: start })
        } else {
            match self.spec_find_route(start, target) {
                None => Err(ErrorView::NoMigrationPath { from: start, to: target }),
                Some(route) => self.spec_fold(value, start, route),
            }
        }
    }

    /// Migrates data from a starting model version to a requested one,
    /// folding the value through every step of the route between them.
    pub fn perform_migration(
        &self,
        starting_value: Value,
        starting_version: &str,
        target_version: &str,
    ) -> (r: Result<Value, Error>)
        ensures
            res_view(r) == self.spec_perform_migration(
                starting_value@,
                starting_version@,
                target_version@,
            ),
    {
        if self.model(starting_version).is_none() {
            return Err(Error::UnknownVersion { version: String::from_str(starting_version) });
        }
        let route = match self.find_migration_route(starting_version, target_version) {
            None => {
                return Err(
                    Error::NoMigrationPath {
                        from: String::from_str(starting_version),
                        to: String::from_str(target_version),
                    },
                );
            },
            Some(route) => route,
        };
        let mut current_value = starting_value;
        let mut current_version = String::from_str(starting_version);
        let n = route.len();
        let mut i: usize = 0;
        proof {
            assert(route@.skip(0) =~= route@);
        }
        while i < n
            invariant
                n == route@.len(),
                0 <= i <= n,
                self.spec_perform_migration(starting_value@, starting_version@, target_version@)
                    == self.spec_fold(current_value@, current_version@, route@.skip(i as int)),
            decreases n - i,
        {
            let ghost remaining = route@.skip(i as int);
            proof {
                assert(remaining[0] == route@[i as int]);
                assert(remaining.drop_first() =~= route@.skip(i as int + 1));
            }
            let m = match self.model(current_version.as_str()) {
                None => {
                    return Err(Error::InternalConsistencyFault { version: current_version });
                },
                Some(m) => m,
            };
            let direction = route[i];
            let next = match (match direction {
                MigrationDirection::Forward => m.migrates_forward_to(),
                MigrationDirection::Backward => m.migrates_backward_to(),
            }) {
                None => {
                    return Err(Error::InternalConsistencyFault { version: current_version });
                },
                Some(next) => next,
            };
            if self.model(next.as_str()).is_none() {
                return Err(Error::InternalConsistencyFault { version: next });
            }
            let step = match direction {
                MigrationDirection::Forward => m.migrate_forward(current_value),
                MigrationDirection::Backward => m.migrate_backward(current_value),
            };
            match step {
                Err(e) => {
                    return Err(
                        Error::MigrationStepFailure {
                            from: current_version,
                            to: next,
                            cause: Box::new(e),
                        },
                    );
                },
                Ok(migrated) => {
                    current_value = migrated;
                    current_version = next;
                },
            }
            i += 1;
        }
        proof {
            assert(route@.skip(n as int) =~= Seq::<MigrationDirection>::empty());
        }
        Ok(current_value)
    }

    /// What `set` decides for a version: the registered model's decision, or
    /// the unknown-version error.
    pub open spec fn spec_set(
        self,
        version: Seq<char>,
        current: Option<ValueView>,
        target: ValueView,
    ) -> Result<ValueView, ErrorView> {
        match self.spec_lookup(version) {
            None => Err(ErrorView::UnknownVersion { version }),
            Some(m) => m.spec_set(current, target),
        }
    }

    /// What `generate` decides for a version.
    pub open spec fn spec_generate(
        self,
        version: Seq<char>,
        existing_partial: Option<ValueView>,
        dependent_settings: Option<ValueView>,
    ) -> Result<GenerateResult<ValueView, ValueView>, ErrorView> {
        match self.spec_lookup(version) {
            None => Err(ErrorView::UnknownVersion { version }),
            Some(m) => m.spec_generate(existing_partial, dependent_settings),
        }
    }

    /// What `validate` decides for a version.
    pub open spec fn spec_validate(
        self,
        version: Seq<char>,
        value: ValueView,
        dependent_settings: Option<ValueView>,
    ) -> Result<bool, ErrorView> {
        match self.spec_lookup(version) {
            None => Err(ErrorView::UnknownVersion { version }),
            Some(m) => m.spec_validate(value, dependent_settings),
        }
    }

    /// Dispatches a set request to the requested model.
    pub fn set(&self, args: SetCommand) -> (r: Result<Value, Error>)
        ensures
            res_view(r) == self.spec_set(
                args.setting_version@,
                opt_view(args.current_value),
                args.value@,
            ),
    {
        match self.model(args.setting_version.as_str()) {
            None => Err(Error::UnknownVersion { version: args.setting_version }),
            Some(m) => m.set(args.current_value, args.value),
        }
    }

    /// Dispatches a generate request to the requested model.
    pub fn generate(&self, args: GenerateCommand) -> (r: Result<GenerateResult<Value, Value>, Error>)
        ensures
            res_view(r) == self.spec_generate(
                args.setting_version@,
                opt_view(args.existing_partial),
                opt_view(args.required_settings),
            ),
    {
        match self.model(args.setting_version.as_str()) {
            None => Err(Error::UnknownVersion { version: args.setting_version }),
            Some(m) => m.generate(args.existing_partial, args.required_settings),
        }
    }

    /// Dispatches a validate request to the requested model.
    pub fn validate(&self, args: ValidateCommand) -> (r: Result<bool, Error>)
        ensures
            res_view(r) == self.spec_validate(
                args.setting_version@,
                args.value@,
                opt_view(args.required_settings),
            ),
    {
        match self.model(args.setting_version.as_str()) {
            None => Err(Error::UnknownVersion { version: args.setting_version }),
            Some(m) => m.validate(args.value, args.required_settings),
        }
    }

    /// Dispatches a migrate request to the migration executor.
    pub fn migrate(&self, args: MigrateCommand) -> (r: Result<Value, Error>)
        ensures
            res_view(r) == self.spec_perform_migration(
                args.value@,
                args.from_version@,
                args.target_version@,
            ),
    {
        let value = args.value;
        self.perform_migration(value, args.from_version.as_str(), args.target_version.as_str())
    }

    /// What dispatching one protocol command renders: the accepted value for
    /// a set, the tagged generation outcome for a generate, the verdict for a
    /// validate, and the migrated value for a migrate.
    pub open spec fn spec_dispatch(self, command: Proto1Command) -> Result<ValueView, ErrorView> {
        match command {
            Proto1Command::SetValue(s) => self.spec_set(
                s.setting_version@,
                opt_view(s.current_value),
                s.value@,
            ),
            Proto1Command::Generate(g) => match self.spec_generate(
                g.setting_version@,
                opt_view(g.existing_partial),
                opt_view(g.required_settings),
            ) {
                Ok(generated) => Ok(spec_generate_result_value(generated)),
                Err(e) => Err(e),
            },
            Proto1Command::Validate(v) => match self.spec_validate(
                v.setting_version@,
                v.value@,
                opt_view(v.required_settings),
            ) {
                Ok(verdict) => Ok(ValueView::Bool(verdict)),
                Err(e) => Err(e),
            },
            Proto1Command::Migrate(m) => self.spec_perform_migration(
                m.value@,
                m.from_version@,
                m.target_version@,
            ),
        }
    }

    /// Maps one protocol command onto the registry and the migration
    /// executor, and renders the outcome as a single exchange value.
    pub fn dispatch(&self, command: Proto1Command) -> (r: Result<Value, Error>)
        ensures
            res_view(r) == self.spec_dispatch(command),
    {
        match command {
            Proto1Command::SetValue(s) => self.set(s),
            Proto1Command::Generate(g) => match self.generate(g) {
                Ok(generated) => Ok(generated.into_value()),
                Err(e) => Err(e),
            },
            Proto1Command::Validate(v) => match self.validate(v) {
                Ok(verdict) => Ok(Value::Bool(verdict)),
                Err(e) => Err(e),
            },
            Proto1Command::Migrate(m) => self.migrate(m),
        }
    }
}

/// A chain walk counts at most as many steps as it was given fuel.
proof fn lemma_walk_bounded<M: Model>(
    ext: SettingsExtension<M>,
    from: Seq<char>,
    target: Seq<char>,
    direction: MigrationDirection,
    fuel: nat,
)
    ensures
        ext.spec_walk(from, target, direction, fuel) matches Some(n) ==> n <= fuel,
    decreases fuel,
{
    if ext.spec_lookup(from) is Some {
        let m = ext.spec_lookup(from)->Some_0;
        if from != target && fuel > 0 && spec_neighbor(m, direction) is Some {
            lemma_walk_bounded(
                ext,
                spec_neighbor(m, direction)->Some_0,
                target,
                direction,
                (fuel - 1) as nat,
            );
        }
    }
}

/// Every route is uniform, all steps in one direction, and never longer than
/// the registry itself: even a mistakenly cyclic chain cannot produce an
/// unbounded route.
pub proof fn lemma_route_bounded<M: Model>(
    ext: SettingsExtension<M>,
    start: Seq<char>,
    target: Seq<char>,
    route: Seq<MigrationDirection>,
)
    requires
        ext.spec_find_route(start, target) == Some(route),
    ensures
        route.len() <= ext@.len(),
        forall|i: int| 0 <= i < route.len() ==> #[trigger] route[i] == route[0],
{
    lemma_walk_bounded(ext, start, target, MigrationDirection::Forward, ext@.len());
    lemma_walk_bounded(ext, start, target, MigrationDirection::Backward, ext@.len());
}

/// Folding along a route that a chain walk just found steps only through
/// registered models, so the fold never reports an internal consistency
/// fault.
proof fn lemma_fold_along_walk<M: Model>(
    ext: SettingsExtension<M>,
    value: ValueView,
    from: Seq<char>,
    target: Seq<char>,
    direction: MigrationDirection,
    fuel: nat,
    n: nat,
)
    requires
        ext.spec_walk(from, target, direction, fuel) == Some(n),
    ensures
        ext.spec_fold(value, from, Seq::new(n, |i: int| direction)) matches Err(e) ==> !(e
            is InternalConsistencyFault),
    decreases n,
{
    let route = Seq::new(n, |i: int| direction);
    if n > 0 {
        let m = ext.spec_lookup(from)->Some_0;
        let next = spec_neighbor(m, direction)->Some_0;
        assert(ext.spec_walk(next, target, direction, (fuel - 1) as nat) == Some((n - 1) as nat));
        assert(route[0] == direction);
        let step = match direction {
            MigrationDirection::Forward => m.spec_migrate_forward(value),
            MigrationDirection::Backward => m.spec_migrate_backward(value),
        };
        if step is Ok {
            let migrated = step->Ok_0;
            assert(route.drop_first() =~= Seq::new((n - 1) as nat, |i: int| direction));
            lemma_fold_along_walk(
                ext,
                migrated,
                next,
                target,
                direction,
                (fuel - 1) as nat,
                (n - 1) as nat,
            );
        }
    }
}

/// The migration executor never reports an internal consistency fault as its
/// outcome: every route it executes was just found by walking links among
/// registered models, so each step's lookup succeeds by construction. A step
/// may still fail, and is then wrapped as that step's own failure.
pub proof fn lemma_routed_migration_consistent<M: Model>(
    ext: SettingsExtension<M>,
    value: ValueView,
    start: Seq<char>,
    target: Seq<char>,
)
    ensures
        ext.spec_perform_migration(value, start, target) matches Err(e) ==> !(e
            is InternalConsistencyFault),
{
    if ext.spec_lookup(start) is Some && ext.spec_find_route(start, target) is Some {
        if start == target {
            assert(ext.spec_fold(value, start, Seq::empty()) == Ok::<ValueView, ErrorView>(value));
        } else {
            let fuel = ext@.len();
            if ext.spec_walk(start, target, MigrationDirection::Forward, fuel) is Some {
                let n = ext.spec_walk(start, target, MigrationDirection::Forward, fuel)->Some_0;
                lemma_fold_along_walk(
                    ext,
                    value,
                    start,
                    target,
                    MigrationDirection::Forward,
                    fuel,
                    n,
                );
            } else {
                let n = ext.spec_walk(start, target, MigrationDirection::Backward, fuel)->Some_0;
                lemma_fold_along_walk(
                    ext,
                    value,
                    start,
                    target,
                    MigrationDirection::Backward,
                    fuel,
                    n,
                );
            }
        }
    }
}

/// A registered version routes to itself by the empty route, and migrating a
/// value from a registered version to itself returns the value unchanged.
pub proof fn lemma_identity_route<M: Model>(
    ext: SettingsExtension<M>,
    version: Seq<char>,
    value: ValueView,
)
    requires
        ext.spec_lookup(version) is Some,
    ensures
        ext.spec_find_route(version, version) == Some(Seq::<MigrationDirection>::empty()),
        ext.spec_perform_migration(value, version, version) == Ok::<ValueView, ErrorView>(value),
{
    assert(ext.spec_fold(value, version, Seq::empty()) == Ok::<ValueView, ErrorView>(value));
}

/// Migrating from an unregistered starting version fails as an unknown
/// version, whatever the target, before any routing is attempted.
pub proof fn lemma_unknown_start<M: Model>(
    ext: SettingsExtension<M>,
    value: ValueView,
    start: Seq<char>,
    target: Seq<char>,
)
    requires
        ext.spec_lookup(start) is None,
    ensures
        ext.spec_perform_migration(value, start, target) == Err::<ValueView, ErrorView>(
            ErrorView::UnknownVersion { version: start },
        ),
{
}

/// A chain walk never reaches a version that is absent from the registry.
proof fn lemma_walk_misses_absent_target<M: Model>(
    ext: SettingsExtension<M>,
    from: Seq<char>,
    target: Seq<char>,
    direction: MigrationDirection,
    fuel: nat,
)
    requires
        ext.spec_lookup(target) is None,
    ensures
        ext.spec_walk(from, target, direction, fuel) is None,
    decreases fuel,
{
    if ext.spec_lookup(from) is Some {
        let m = ext.spec_lookup(from)->Some_0;
        if from != target && fuel > 0 && spec_neighbor(m, direction) is Some {
            lemma_walk_misses_absent_target(
                ext,
                spec_neighbor(m, direction)->Some_0,
                target,
                direction,
                (fuel - 1) as nat,
            );
        }
    }
}

/// No route leads to a version that is absent from the registry, and the
/// executor reports the missing migration path for any registered start.
pub proof fn lemma_absent_target<M: Model>(
    ext: SettingsExtension<M>,
    value: ValueView,
    start: Seq<char>,
    target: Seq<char>,
)
    requires
        ext.spec_lookup(target) is None,
        start != target,
    ensures
        ext.spec_find_route(start, target) is None,
        ext.spec_lookup(start) is Some ==> ext.spec_perform_migration(value, start, target)
            == Err::<ValueView, ErrorView>(ErrorView::NoMigrationPath { from: start, to: target }),
{
    lemma_walk_misses_absent_target(ext, start, target, MigrationDirection::Forward, ext@.len());
    lemma_walk_misses_absent_target(ext, start, target, MigrationDirection::Backward, ext@.len());
}

/// A registered version that names no neighbor in either direction reaches no
/// other version: a chain disjoint from it stays unreachable, and the
/// executor reports the missing migration path.
pub proof fn lemma_unlinked_no_route<M: Model>(
    ext: SettingsExtension<M>,
    value: ValueView,
    start: Seq<char>,
    target: Seq<char>,
)
    requires
        ext.spec_lookup(start) matches Some(m) && m.spec_forward_version() is None
            && m.spec_backward_version() is None,
        start != target,
    ensures
        ext.spec_find_route(start, target) is None,
        ext.spec_perform_migration(value, start, target) == Err::<ValueView, ErrorView>(
            ErrorView::NoMigrationPath { from: start, to: target },
        ),
{
}

/// Along a three-node linear chain, routing from one end to the other takes
/// two steps in that end's direction: two forward steps from the oldest
/// version, two backward steps from the newest.
pub proof fn lemma_linear_chain_routes<M: Model>(
    ext: SettingsExtension<M>,
    v1: Seq<char>,
    v2: Seq<char>,
    v3: Seq<char>,
)
    requires
        ext.spec_lookup(v1) matches Some(m1) && m1.spec_forward_version() == Some(v2)
            && m1.spec_backward_version() is None,
        ext.spec_lookup(v2) matches Some(m2) && m2.spec_forward_version() == Some(v3)
            && m2.spec_backward_version() == Some(v1),
        ext.spec_lookup(v3) matches Some(m3) && m3.spec_forward_version() is None
            && m3.spec_backward_version() == Some(v2),
        v1 != v2,
        v2 != v3,
        v1 != v3,
    ensures
        ext.spec_find_route(v1, v3) == Some(
            seq![MigrationDirection::Forward, MigrationDirection::Forward],
        ),
        ext.spec_find_route(v3, v1) == Some(
            seq![MigrationDirection::Backward, MigrationDirection::Backward],
        ),
{
    let fuel0 = ext@.len();
    assert(fuel0 >= 2) by {
        if fuel0 == 0 {
            assert(spec_lookup_from(ext@, v1, 0) is None);
        } else if fuel0 == 1 {
            assert(spec_lookup_from(ext@, v1, 1) is None);
            assert(spec_lookup_from(ext@, v2, 1) is None);
            assert(ext@[0].spec_version() == v1);
            assert(ext@[0].spec_version() == v2);
        }
    }
    let fuel1 = (fuel0 - 1) as nat;
    let fuel2 = (fuel1 - 1) as nat;
    assert(ext.spec_walk(v3, v3, MigrationDirection::Forward, fuel2) == Some(0nat));
    assert(ext.spec_walk(v2, v3, MigrationDirection::Forward, fuel1) == Some(1nat));
    assert(ext.spec_walk(v1, v3, MigrationDirection::Forward, fuel0) == Some(2nat));
    assert(Seq::new(2, |i: int| MigrationDirection::Forward) =~= seq![
        MigrationDirection::Forward,
        MigrationDirection::Forward,
    ]);
    assert(ext.spec_walk(v3, v1, MigrationDirection::Forward, fuel0) is None);
    assert(ext.spec_walk(v1, v1, MigrationDirection::Backward, fuel2) == Some(0nat));
    assert(ext.spec_walk(v2, v1, MigrationDirection::Backward, fuel1) == Some(1nat));
    assert(ext.spec_walk(v3, v1, MigrationDirection::Backward, fuel0) == Some(2nat));
    assert(Seq::new(2, |i: int| MigrationDirection::Backward) =~= seq![
        MigrationDirection::Backward,
        MigrationDirection::Backward,
    ]);
}

/// A route of `n` equal steps.
fn repeat_direction(direction: MigrationDirection, n: usize) -> (r: Vec<MigrationDirection>)
    ensures
        r@ == Seq::new(n as nat, |i: int| direction),
{
    let mut route: Vec<MigrationDirection> = Vec::new();
    let mut i: usize = 0;
    while i < n
        invariant
            0 <= i <= n,
            route@.len() == i,
            forall|k: int| 0 <= k < i ==> route@[k] == direction,
        decreases n - i,
    {
        route.push(direction);
        i += 1;
    }
    proof {
        assert(route@ =~= Seq::new(n as nat, |i: int| direction));
    }
    route
}

} // verus!

