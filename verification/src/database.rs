//! The collections of the service, one for each kind of record.

use vstd::prelude::*;

use crate::config::Config;
use crate::models::{Client, Contract, Invoice, Project, Resume, TimeEntry, User};
use crate::store::Collection;

verus! {

pub struct Database {
    pub users: Collection<User>,
    pub clients: Collection<Client>,
    pub invoices: Collection<Invoice>,
    pub time_entries: Collection<TimeEntry>,
    pub projects: Collection<Project>,
    pub contracts: Collection<Contract>,
    pub resumes: Collection<Resume>,
}

impl Database {
    /// A database without a record: each of its collections is as it
    /// is made, so that the first record of each kind gets the
    /// identifier zero.
    pub fn new() -> (db: Database)
        ensures
            db.users.is_new(),
            db.clients.is_new(),
            db.invoices.is_new(),
            db.time_entries.is_new(),
            db.projects.is_new(),
            db.contracts.is_new(),
            db.resumes.is_new(),
    {
        Database {
            users: Collection::new(),
            clients: Collection::new(),
            invoices: Collection::new(),
            time_entries: Collection::new(),
            projects: Collection::new(),
            contracts: Collection::new(),
            resumes: Collection::new(),
        }
    }

    pub fn users(&self) -> (c: &Collection<User>)
        ensures
            *c == self.users,
    {
        &self.users
    }

    pub fn clients(&self) -> (c: &Collection<Client>)
        ensures
            *c == self.clients,
    {
        &self.clients
    }

    pub fn invoices(&self) -> (c: &Collection<Invoice>)
        ensures
            *c == self.invoices,
    {
        &self.invoices
    }

    pub fn time_entries(&self) -> (c: &Collection<TimeEntry>)
        ensures
            *c == self.time_entries,
    {
        &self.time_entries
    }

    pub fn projects(&self) -> (c: &Collection<Project>)
        ensures
            *c == self.projects,
    {
        &self.projects
    }

    pub fn contracts(&self) -> (c: &Collection<Contract>)
        ensures
            *c == self.contracts,
    {
        &self.contracts
    }

    pub fn resumes(&self) -> (c: &Collection<Resume>)
        ensures
            *c == self.resumes,
    {
        &self.resumes
    }
}

/// What every request handler is given: the collections and the settings.
pub struct AppState {
    pub db: Database,
    pub config: Config,
}

impl AppState {
    /// `after` is this state but for the accounts.
    pub open spec fn but_users(self, after: AppState) -> bool {
        after == (AppState { db: Database { users: after.db.users, ..self.db }, ..self })
    }

    /// `after` is this state but for the clients.
    pub open spec fn but_clients(self, after: AppState) -> bool {
        after == (AppState { db: Database { clients: after.db.clients, ..self.db }, ..self })
    }

    /// `after` is this state but for the invoices.
    pub open spec fn but_invoices(self, after: AppState) -> bool {
        after == (AppState { db: Database { invoices: after.db.invoices, ..self.db }, ..self })
    }

    /// `after` is this state but for the time entries.
    pub open spec fn but_time_entries(self, after: AppState) -> bool {
        after == (AppState { db: Database { time_entries: after.db.time_entries, ..self.db }, ..self })
    }

    /// `after` is this state but for the projects.
    pub open spec fn but_projects(self, after: AppState) -> bool {
        after == (AppState { db: Database { projects: after.db.projects, ..self.db }, ..self })
    }

    /// `after` is this state but for the contracts.
    pub open spec fn but_contracts(self, after: AppState) -> bool {
        after == (AppState { db: Database { contracts: after.db.contracts, ..self.db }, ..self })
    }

    /// `after` is this state but for the resumes.
    pub open spec fn but_resumes(self, after: AppState) -> bool {
        after == (AppState { db: Database { resumes: after.db.resumes, ..self.db }, ..self })
    }
}

} // verus!
