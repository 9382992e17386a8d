//! The decisions of a database setup.
//!
//! Setting up a database takes up to four pieces of outside work: asking
//! whether the database exists, creating it, connecting to it, and creating
//! the tables. This module decides which comes next. The caller starts at
//! [`SetupStep::CheckExists`], does what the step asks for, reports how it
//! went as a [`SetupEvent`], and goes on with the step that [`setup_db`]
//! returns, until that is [`SetupStep::Finished`].
//!
//! `C` is the caller's connection and `E` its error; both pass through as
//! they are.

use crate::schema::CREATE_TABLES;
use vstd::prelude::*;

verus! {

/// What a setup asks of its caller next, or how it ended.
pub enum SetupStep<C, E> {
    /// Ask whether the database exists.
    CheckExists,
    /// Create the database.
    CreateDatabase,
    /// Connect to the database.
    Connect,
    /// Run `statement` on `connection`.
    CreateTables { connection: C, statement: &'static str },
    /// Nothing is left to do: the setup succeeded, or failed with the error
    /// of the step that failed.
    Finished(Result<(), E>),
}

/// How a piece of outside work went.
pub enum SetupEvent<C, E> {
    /// The answer to [`SetupStep::CheckExists`].
    ExistenceChecked(Result<bool, E>),
    /// The answer to [`SetupStep::CreateDatabase`].
    DatabaseCreated(Result<(), E>),
    /// The answer to [`SetupStep::Connect`].
    Connected(Result<C, E>),
    /// The answer to [`SetupStep::CreateTables`].
    TablesCreated(Result<(), E>),
}

/// Whether `event` reports on the work that `step` asks for.
pub open spec fn answers<C, E>(event: SetupEvent<C, E>, step: SetupStep<C, E>) -> bool {
    match (step, event) {
        (SetupStep::CheckExists, SetupEvent::ExistenceChecked(_)) => true,
        (SetupStep::CreateDatabase, SetupEvent::DatabaseCreated(_)) => true,
        (SetupStep::Connect, SetupEvent::Connected(_)) => true,
        (SetupStep::CreateTables { .. }, SetupEvent::TablesCreated(_)) => true,
        _ => false,
    }
}

/// The step that follows `step` once `event` has come in.
///
/// - A database that is known to exist is connected to; one that does not
///   exist, or whose existence could not be checked, is created first.
/// - A failed creation, connection or statement ends the setup with its
///   error.
/// - The tables are created on the connection that was opened, with the
///   statement of the schema.
/// - An event that does not answer the step changes nothing.
pub open spec fn next_step<C, E>(step: SetupStep<C, E>, event: SetupEvent<C, E>) -> SetupStep<
    C,
    E,
> {
    match (step, event) {
        (SetupStep::CheckExists, SetupEvent::ExistenceChecked(Ok(true))) => SetupStep::Connect,
        (SetupStep::CheckExists, SetupEvent::ExistenceChecked(_)) => SetupStep::CreateDatabase,
        (SetupStep::CreateDatabase, SetupEvent::DatabaseCreated(Ok(_))) => SetupStep::Connect,
        (SetupStep::CreateDatabase, SetupEvent::DatabaseCreated(Err(e))) => SetupStep::Finished(
            Err(e),
        ),
        (SetupStep::Connect, SetupEvent::Connected(Ok(connection))) => SetupStep::CreateTables {
            connection,
            statement: CREATE_TABLES,
        },
        (SetupStep::Connect, SetupEvent::Connected(Err(e))) => SetupStep::Finished(Err(e)),
        (SetupStep::CreateTables { .. }, SetupEvent::TablesCreated(Ok(_))) => SetupStep::Finished(
            Ok(()),
        ),
        (SetupStep::CreateTables { .. }, SetupEvent::TablesCreated(Err(e))) => SetupStep::Finished(
            Err(e),
        ),
        (step, _) => step,
    }
}

/// Decides how the setup goes on from `step` after `event`.
pub fn setup_db<C, E>(step: SetupStep<C, E>, event: SetupEvent<C, E>) -> (next: SetupStep<C, E>)
    ensures
        next == next_step(step, event),
{
    match step {
        SetupStep::CheckExists => match event {
            SetupEvent::ExistenceChecked(Ok(true)) => SetupStep::Connect,
            SetupEvent::ExistenceChecked(_) => SetupStep::CreateDatabase,
            _ => SetupStep::CheckExists,
        },
        SetupStep::CreateDatabase => match event {
            SetupEvent::DatabaseCreated(Ok(_)) => SetupStep::Connect,
            SetupEvent::DatabaseCreated(Err(e)) => SetupStep::Finished(Err(e)),
            _ => SetupStep::CreateDatabase,
        },
        SetupStep::Connect => match event {
            SetupEvent::Connected(Ok(connection)) => SetupStep::CreateTables {
                connection,
                statement: CREATE_TABLES,
            },
            SetupEvent::Connected(Err(e)) => SetupStep::Finished(Err(e)),
            _ => SetupStep::Connect,
        },
        SetupStep::CreateTables { connection, statement } => match event {
            SetupEvent::TablesCreated(Ok(_)) => SetupStep::Finished(Ok(())),
            SetupEvent::TablesCreated(Err(e)) => SetupStep::Finished(Err(e)),
            _ => SetupStep::CreateTables { connection, statement },
        },
        SetupStep::Finished(result) => SetupStep::Finished(result),
    }
}

/// How far `step` is into a setup.
pub open spec fn progress<C, E>(step: SetupStep<C, E>) -> nat {
    match step {
        SetupStep::CheckExists => 0,
        SetupStep::CreateDatabase => 1,
        SetupStep::Connect => 2,
        SetupStep::CreateTables { .. } => 3,
        SetupStep::Finished(_) => 4,
    }
}

/// Every event that answers the step in hand moves the setup on, and no
/// event moves it back: a caller that reports on what it was asked to do is
/// finished after four events at most.
pub proof fn lemma_setup_advances<C, E>(step: SetupStep<C, E>, event: SetupEvent<C, E>)
    ensures
        progress(next_step(step, event)) >= progress(step),
        answers(event, step) ==> progress(next_step(step, event)) > progress(step),
        !answers(event, step) ==> next_step(step, event) == step,
{
}

/// A finished setup stays as it is, whatever comes in.
pub proof fn lemma_finished_stays<C, E>(result: Result<(), E>, event: SetupEvent<C, E>)
    ensures
        next_step(SetupStep::<C, E>::Finished(result), event) == SetupStep::<C, E>::Finished(
            result,
        ),
{
}

/// What the outside world holds in store for one setup: how each piece of
/// work would go if the setup asked for it.
pub struct World<C, E> {
    pub exists: Result<bool, E>,
    pub created: Result<(), E>,
    pub connected: Result<C, E>,
    pub tables: Result<(), E>,
}

/// The event with which `world` answers `step`. A finished setup asks for
/// nothing, and whatever comes in then is ignored.
pub open spec fn event_in<C, E>(world: World<C, E>, step: SetupStep<C, E>) -> SetupEvent<C, E> {
    match step {
        SetupStep::CheckExists => SetupEvent::ExistenceChecked(world.exists),
        SetupStep::CreateDatabase => SetupEvent::DatabaseCreated(world.created),
        SetupStep::Connect => SetupEvent::Connected(world.connected),
        SetupStep::CreateTables { .. } => SetupEvent::TablesCreated(world.tables),
        SetupStep::Finished(_) => SetupEvent::TablesCreated(world.tables),
    }
}

/// Where a setup stands in `world` after `n` pieces of work.
pub open spec fn run<C, E>(world: World<C, E>, n: nat) -> SetupStep<C, E>
    decreases n,
{
    if n == 0 {
        SetupStep::CheckExists
    } else {
        next_step(run(world, (n - 1) as nat), event_in(world, run(world, (n - 1) as nat)))
    }
}

/// Whether a setup in `world` has to create the database: it does unless the
/// check says that the database exists.
pub open spec fn must_create<C, E>(world: World<C, E>) -> bool {
    world.exists != Ok::<bool, E>(true)
}

/// Whether a setup in `world` gets as far as a database that is there: one
/// that exists, or one that it created.
pub open spec fn database_ready<C, E>(world: World<C, E>) -> bool {
    must_create(world) ==> world.created is Ok
}

/// How a setup in `world` ends: with the error of the first piece of work
/// that fails among creating the database (where that is needed), connecting
/// and creating the tables, or else with success. A failed check is no error.
pub open spec fn outcome<C, E>(world: World<C, E>) -> Result<(), E> {
    if !database_ready(world) {
        Err(world.created->Err_0)
    } else if world.connected is Err {
        Err(world.connected->Err_0)
    } else if world.tables is Err {
        Err(world.tables->Err_0)
    } else {
        Ok(())
    }
}

/// A setup is finished after four pieces of work, with the outcome that the
/// world allows, and stays so.
pub proof fn lemma_setup_finishes<C, E>(world: World<C, E>, n: nat)
    requires
        n >= 4,
    ensures
        run(world, n) == SetupStep::<C, E>::Finished(outcome(world)),
    decreases n,
{
    if n == 4 {
        reveal_with_fuel(run, 5);
    } else {
        lemma_setup_finishes(world, (n - 1) as nat);
    }
}

/// The database is created only where it has to be, and then as the first
/// thing after the check.
pub proof fn lemma_creates_when_absent<C, E>(world: World<C, E>, n: nat)
    ensures
        run(world, n) is CreateDatabase <==> n == 1 && must_create(world),
{
    reveal_with_fuel(run, 5);
    if n > 4 {
        lemma_setup_finishes(world, n);
    }
}

/// The setup connects once the database is there: right after the check
/// where it exists, right after the creation where it was created, and never
/// after a creation that failed.
pub proof fn lemma_connects_when_ready<C, E>(world: World<C, E>, n: nat)
    ensures
        run(world, n) is Connect <==> database_ready(world) && n == (if must_create(world) {
            2nat
        } else {
            1nat
        }),
{
    reveal_with_fuel(run, 5);
    if n > 4 {
        lemma_setup_finishes(world, n);
    }
}

/// The tables are created once the connection is open, on that connection
/// and with the statement of the schema, and never before.
pub proof fn lemma_creates_tables_when_connected<C, E>(world: World<C, E>, n: nat)
    ensures
        run(world, n) is CreateTables <==> database_ready(world) && world.connected is Ok && n == (
        if must_create(world) {
            3nat
        } else {
            2nat
        }),
        run(world, n) is CreateTables ==> run(world, n) == (SetupStep::<C, E>::CreateTables {
            connection: world.connected->Ok_0,
            statement: CREATE_TABLES,
        }),
{
    reveal_with_fuel(run, 5);
    if n > 4 {
        lemma_setup_finishes(world, n);
    }
}

/// A setup succeeds only by way of the statement: it got as far as creating
/// the tables, and the statement went through.
pub proof fn lemma_success_ran_statement<C, E>(world: World<C, E>)
    ensures
        outcome(world) is Ok <==> world.tables is Ok && exists|n: nat| #[trigger]
            run(world, n) is CreateTables,
{
    if database_ready(world) && world.connected is Ok {
        let n: nat = if must_create(world) {
            3
        } else {
            2
        };
        lemma_creates_tables_when_connected(world, n);
    }
    assert forall|n: nat| #[trigger] run(world, n) is CreateTables implies database_ready(world)
        && world.connected is Ok by {
        lemma_creates_tables_when_connected(world, n);
    }
}

/// Setting up a database that exists, can be connected to and takes the
/// statement succeeds without a creation: a setup can be repeated.
pub proof fn lemma_setup_repeats<C, E>(world: World<C, E>, n: nat)
    requires
        world.exists == Ok::<bool, E>(true),
        world.connected is Ok,
        world.tables is Ok,
    ensures
        outcome(world) == Ok::<(), E>(()),
        !(run(world, n) is CreateDatabase),
{
    lemma_creates_when_absent(world, n);
}

} // verus!
