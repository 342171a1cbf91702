//! Engine identities and the registry of dialects.

use vstd::prelude::*;

verus! {

/// The relational engine a connection targets: one of a closed set.
#[derive(Clone, Copy, Debug, PartialEq, Eq, Hash, Structural)]
pub enum Engine {
    MySql,
    Postgres,
    Sqlite,
}

/// The engines whose dialect is present in the running build.
///
/// The registry may be sparse. Dispatching on an engine that it lacks is a
/// configuration error, never a data-access error.
#[derive(Clone, Copy, Debug, PartialEq, Eq, Structural)]
pub struct Dialects {
    mysql: bool,
    postgres: bool,
    sqlite: bool,
}

impl Engine {
    /// What is said when the dialect of this engine is missing.
    pub open spec fn absence(self) -> Seq<char> {
        match self {
            Engine::MySql => "mysql feature is off"@,
            Engine::Postgres => "postgres feature is off"@,
            Engine::Sqlite => "sqlite feature is off"@,
        }
    }

    /// What is said when the dialect of this engine is missing.
    pub fn absence_message(self) -> (message: &'static str)
        ensures
            message@ == self.absence(),
    {
        match self {
            Engine::MySql => "mysql feature is off",
            Engine::Postgres => "postgres feature is off",
            Engine::Sqlite => "sqlite feature is off",
        }
    }
}

impl View for Dialects {
    type V = Set<Engine>;

    /// The set of engines with a dialect.
    closed spec fn view(&self) -> Set<Engine> {
        Set::new(
            |engine: Engine|
                match engine {
                    Engine::MySql => self.mysql,
                    Engine::Postgres => self.postgres,
                    Engine::Sqlite => self.sqlite,
                },
        )
    }
}

impl Dialects {
    /// Whether the registry holds a dialect for `engine`.
    pub open spec fn has(self, engine: Engine) -> bool {
        self@.contains(engine)
    }

    /// The registry with a dialect for every engine.
    pub fn all() -> (dialects: Self)
        ensures
            dialects@ == Set::<Engine>::full(),
    {
        let dialects = Dialects { mysql: true, postgres: true, sqlite: true };
        assert(dialects@ =~= Set::<Engine>::full());
        dialects
    }

    /// The registry with no dialect at all.
    pub fn none() -> (dialects: Self)
        ensures
            dialects@ == Set::<Engine>::empty(),
    {
        let dialects = Dialects { mysql: false, postgres: false, sqlite: false };
        assert(dialects@ =~= Set::<Engine>::empty());
        dialects
    }

    /// This registry with the dialect of `engine` added.
    pub fn with(self, engine: Engine) -> (dialects: Self)
        ensures
            dialects@ == self@.insert(engine),
    {
        let dialects = match engine {
            Engine::MySql => Dialects { mysql: true, postgres: self.postgres, sqlite: self.sqlite },
            Engine::Postgres => Dialects { mysql: self.mysql, postgres: true, sqlite: self.sqlite },
            Engine::Sqlite => Dialects { mysql: self.mysql, postgres: self.postgres, sqlite: true },
        };
        assert(dialects@ =~= self@.insert(engine));
        dialects
    }

    /// This registry with the dialect of `engine` taken out.
    pub fn without(self, engine: Engine) -> (dialects: Self)
        ensures
            dialects@ == self@.remove(engine),
    {
        let dialects = match engine {
            Engine::MySql => Dialects { mysql: false, postgres: self.postgres, sqlite: self.sqlite },
            Engine::Postgres => Dialects { mysql: self.mysql, postgres: false, sqlite: self.sqlite },
            Engine::Sqlite => Dialects { mysql: self.mysql, postgres: self.postgres, sqlite: false },
        };
        assert(dialects@ =~= self@.remove(engine));
        dialects
    }

    /// Looks `engine` up in the registry.
    pub fn supports(&self, engine: Engine) -> (present: bool)
        ensures
            present == self.has(engine),
    {
        match engine {
            Engine::MySql => self.mysql,
            Engine::Postgres => self.postgres,
            Engine::Sqlite => self.sqlite,
        }
    }
}

} // verus!
