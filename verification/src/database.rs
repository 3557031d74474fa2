//! The handle lifecycle manager: the one owner of an opaque engine handle.
//!
//! The manager never calls the native engine itself. It tells its caller what
//! to hand to the native init entry point, judges what came back, and on
//! close hands out the pointer that must be passed to the native free entry
//! point, once and never again.

use vstd::prelude::*;
use crate::error::{DataStoreError, ErrorView};

verus! {

/// Where a [`Database`] stands in its life.
#[derive(Clone, Copy, Debug, PartialEq, Eq, Structural)]
pub enum LifecycleState {
    /// No handle has been obtained yet.
    Uninitialized,
    /// The manager owns a live native handle.
    Open,
    /// The handle has been given up for release; nothing can be done any more.
    Closed,
}

/// Plain-value image of the structure the native init entry point works on:
/// the configuration it reads and the two slots it writes.
#[derive(Debug, PartialEq, Eq)]
pub struct InitRequest {
    /// The configuration string handed in; empty selects the default configuration.
    pub config: String,
    /// The handle slot as an address; zero stands for the null pointer.
    pub db: usize,
    /// The error slot: `None` while null, otherwise the decoded message.
    pub error: Option<String>,
}

/// Owner of at most one opaque native engine handle.
///
/// The handle is kept as an address and is lent out only while the database
/// is open. The type is deliberately neither `Clone` nor `Copy`.
#[derive(Debug)]
pub struct Database {
    state: LifecycleState,
    handle: usize,
    config: String,
    last_error: Option<String>,
}

/// Mathematical model of a [`Database`].
pub struct DatabaseView {
    pub state: LifecycleState,
    /// The owned pointer as an address; zero whenever the database is not open.
    pub handle: usize,
    pub config: Seq<char>,
    /// The message of the most recent failed init, if the last init failed.
    pub last_error: Option<Seq<char>>,
}

/// Something a caller can do to a database, as seen by the model.
pub enum Operation {
    /// Report what the native init entry point left in its two slots.
    Init { db: usize, error: Option<Seq<char>> },
    /// Close the database.
    Close,
}

/// The contents of an optional string.
pub open spec fn optional_text(text: Option<String>) -> Option<Seq<char>> {
    match text {
        Some(t) => Some(t@),
        None => None,
    }
}

impl DatabaseView {
    /// A non-null pointer is held exactly while open, and a remembered init
    /// failure means the database never opened.
    pub open spec fn wf(self) -> bool {
        &&& self.state is Open <==> self.handle != 0
        &&& self.last_error is Some ==> self.state is Uninitialized
    }

    /// A manager that has not been initialized yet.
    pub open spec fn fresh(config: Seq<char>) -> DatabaseView {
        DatabaseView {
            state: LifecycleState::Uninitialized,
            handle: 0,
            config,
            last_error: None,
        }
    }

    /// The pointer that may be lent to a native call right now.
    pub open spec fn lendable(self) -> Option<usize> {
        if self.state is Open {
            Some(self.handle)
        } else {
            None
        }
    }

    /// How the outcome of a native init call is judged: `None` for success,
    /// otherwise the error to report. Only the error slot decides between
    /// success and failure; a null handle without an error is reported as an
    /// unknown failure, and so is an outcome that arrives when no init was
    /// pending.
    pub open spec fn init_verdict(self, db: usize, error: Option<Seq<char>>) -> Option<
        ErrorView,
    > {
        if !(self.state is Uninitialized) {
            Some(ErrorView::Unknown)
        } else if error is Some {
            Some(ErrorView::Initialization(error->Some_0))
        } else if db == 0 {
            Some(ErrorView::Unknown)
        } else {
            None
        }
    }

    /// The manager after the outcome of a native init call has been judged.
    pub open spec fn after_init(self, db: usize, error: Option<Seq<char>>) -> DatabaseView {
        if !(self.state is Uninitialized) {
            self
        } else if error is Some {
            DatabaseView { last_error: error, ..self }
        } else if db == 0 {
            DatabaseView { last_error: None, ..self }
        } else {
            DatabaseView { state: LifecycleState::Open, handle: db, last_error: None, ..self }
        }
    }

    /// The pointer that closing hands out for release, if any.
    pub open spec fn released_by_close(self) -> Option<usize> {
        self.lendable()
    }

    /// The manager after a close.
    pub open spec fn after_close(self) -> DatabaseView {
        if self.state is Open {
            DatabaseView { state: LifecycleState::Closed, handle: 0, ..self }
        } else {
            self
        }
    }

    /// The manager after one operation.
    pub open spec fn step(self, op: Operation) -> DatabaseView {
        match op {
            Operation::Init { db, error } => self.after_init(db, error),
            Operation::Close => self.after_close(),
        }
    }

    /// The pointer that one operation hands out for release, if any.
    pub open spec fn released_by(self, op: Operation) -> Option<usize> {
        match op {
            Operation::Init { .. } => None,
            Operation::Close => self.released_by_close(),
        }
    }

    /// The manager after a sequence of operations.
    pub open spec fn run(self, ops: Seq<Operation>) -> DatabaseView
        decreases ops.len(),
    {
        if ops.len() == 0 {
            self
        } else {
            self.step(ops[0]).run(ops.drop_first())
        }
    }

    /// Every pointer handed out for release along a sequence of operations, in order.
    pub open spec fn released(self, ops: Seq<Operation>) -> Seq<usize>
        decreases ops.len(),
    {
        if ops.len() == 0 {
            Seq::empty()
        } else {
            let rest = self.step(ops[0]).released(ops.drop_first());
            match self.released_by(ops[0]) {
                Some(p) => seq![p] + rest,
                None => rest,
            }
        }
    }

    /// Every handle accepted from the native init entry point along a
    /// sequence of operations, in order.
    pub open spec fn accepted(self, ops: Seq<Operation>) -> Seq<usize>
        decreases ops.len(),
    {
        if ops.len() == 0 {
            Seq::empty()
        } else {
            let rest = self.step(ops[0]).accepted(ops.drop_first());
            match ops[0] {
                Operation::Init { db, error } if self.init_verdict(db, error) is None => seq![db]
                    + rest,
                _ => rest,
            }
        }
    }
}

impl View for InitRequest {
    type V = (Seq<char>, usize, Option<Seq<char>>);

    open spec fn view(&self) -> (Seq<char>, usize, Option<Seq<char>>) {
        (self.config@, self.db, optional_text(self.error))
    }
}

impl View for Database {
    type V = DatabaseView;

    closed spec fn view(&self) -> DatabaseView {
        DatabaseView {
            state: self.state,
            handle: if self.state is Open {
                self.handle
            } else {
                0
            },
            config: self.config@,
            last_error: optional_text(self.last_error),
        }
    }
}

impl Database {
    #[verifier::type_invariant]
    spec fn inv(self) -> bool {
        &&& self.state is Open ==> self.handle != 0
        &&& self.last_error is Some ==> self.state is Uninitialized
    }

    /// A manager for a database with the default configuration. Nothing is
    /// opened yet: the native init call is the caller's to make, with
    /// [`Database::init_request`] and [`Database::complete_init`] around it.
    pub fn new() -> (db: Database)
        ensures
            db@ == DatabaseView::fresh(Seq::empty()),
            db@.wf(),
    {
        Database {
            state: LifecycleState::Uninitialized,
            handle: 0,
            config: String::new(),
            last_error: None,
        }
    }

    /// A manager for a database with the given configuration string.
    pub fn with_config(config: String) -> (db: Database)
        ensures
            db@ == DatabaseView::fresh(config@),
            db@.wf(),
    {
        Database { state: LifecycleState::Uninitialized, handle: 0, config, last_error: None }
    }

    /// Key lookup is not part of the lifecycle surface: this does nothing,
    /// touches no handle and makes no native call.
    pub fn contains_key() {
    }

    /// The lifecycle state.
    pub fn state(&self) -> (s: LifecycleState)
        ensures
            s == self@.state,
            self@.wf(),
    {
        proof {
            use_type_invariant(self);
        }
        self.state
    }

    /// Whether the manager currently owns a live handle.
    pub fn is_open(&self) -> (b: bool)
        ensures
            b == (self@.state is Open),
            b == (self@.handle != 0),
    {
        proof {
            use_type_invariant(self);
        }
        match self.state {
            LifecycleState::Open => true,
            _ => false,
        }
    }

    /// The configuration string this manager was created with.
    pub fn config(&self) -> (c: &str)
        ensures
            c@ == self@.config,
    {
        self.config.as_str()
    }

    /// The message of the most recent init failure, if the last init failed
    /// with a message from the engine.
    pub fn last_error(&self) -> (e: Option<String>)
        ensures
            optional_text(e) == self@.last_error,
    {
        match &self.last_error {
            Some(msg) => Some(msg.clone()),
            None => None,
        }
    }

    /// The owned pointer, lent for the duration of one native call: `Some`
    /// exactly while the database is open, and then never null.
    pub fn handle(&self) -> (h: Option<usize>)
        ensures
            h == self@.lendable(),
            h is Some ==> h->Some_0 != 0,
    {
        proof {
            use_type_invariant(self);
        }
        match self.state {
            LifecycleState::Open => Some(self.handle),
            _ => None,
        }
    }

    /// What to hand to the native init entry point: the configuration and two
    /// empty output slots. `None` unless the database is uninitialized, so
    /// that a handle is never requested twice or after a close.
    pub fn init_request(&self) -> (request: Option<InitRequest>)
        ensures
            request is Some <==> self@.state is Uninitialized,
            request is Some ==> request->Some_0@ == (self@.config, 0usize, None::<Seq<char>>),
    {
        match self.state {
            LifecycleState::Uninitialized => Some(
                InitRequest { config: self.config.clone(), db: 0, error: None },
            ),
            _ => None,
        }
    }

    /// Judges what the native init entry point left in the request's slots.
    ///
    /// With a null error slot and a non-null handle slot the database becomes
    /// open and owns the handle. With a non-null error slot it stays
    /// uninitialized, remembers the message and reports it; the handle slot is
    /// then not looked at, so no handle is ever kept from a failed init.
    pub fn complete_init(&mut self, outcome: InitRequest) -> (result: Result<(), DataStoreError>)
        ensures
            final(self)@ == old(self)@.after_init(outcome.db, optional_text(outcome.error)),
            final(self)@.wf(),
            result is Ok <==> old(self)@.init_verdict(outcome.db, optional_text(outcome.error))
                is None,
            result is Err ==> Some(result->Err_0@) == old(self)@.init_verdict(
                outcome.db,
                optional_text(outcome.error),
            ),
    {
        proof {
            use_type_invariant(&*self);
        }
        match self.state {
            LifecycleState::Uninitialized => {},
            _ => {
                return Err(DataStoreError::Unknown);
            },
        }
        match outcome.error {
            Some(message) => {
                self.last_error = Some(message.clone());
                Err(DataStoreError::Initialization(message))
            },
            None => {
                self.last_error = None;
                if outcome.db == 0 {
                    Err(DataStoreError::Unknown)
                } else {
                    self.handle = outcome.db;
                    self.state = LifecycleState::Open;
                    Ok(())
                }
            },
        }
    }

    /// Closes the database. The first close of an open database hands out the
    /// owned pointer, which the caller passes to the native free entry point;
    /// the manager forgets it at once. Every other close changes nothing and
    /// hands out nothing. Closing cannot fail.
    pub fn close(&mut self) -> (result: Result<Option<usize>, DataStoreError>)
        ensures
            final(self)@ == old(self)@.after_close(),
            final(self)@.wf(),
            result is Ok,
            result->Ok_0 == old(self)@.released_by_close(),
            result->Ok_0 is Some ==> result->Ok_0->Some_0 != 0,
    {
        proof {
            use_type_invariant(&*self);
        }
        match self.state {
            LifecycleState::Open => {
                let pointer = self.handle;
                self.state = LifecycleState::Closed;
                self.handle = 0;
                Ok(Some(pointer))
            },
            _ => Ok(None),
        }
    }
}

impl Default for Database {
    /// The same as [`Database::new`].
    fn default() -> (db: Database)
        ensures
            db@ == DatabaseView::fresh(Seq::empty()),
            db@.wf(),
    {
        Database::new()
    }
}

} // verus!
