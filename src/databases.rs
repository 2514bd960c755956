//! Databases behind a narrow storage interface: an application depends on
//! that interface only, and remote databases add their connection on top.
use vstd::prelude::*;

verus! {

/// Something that stores data; `store_data` gives the line that reports it.
pub trait Database {
    fn store_data(&self, data: &str) -> (r: String)
        ensures
            r@ == "Storing data: "@ + data@,
    {
        let mut out = String::from_str("Storing data: ");
        out.append(data);
        out
    }
}

/// A database reached at a URI; `connect` gives the line that reports the
/// connection.
pub trait RemoteDatabase: Database {
    /// The URI of the database.
    spec fn spec_uri(&self) -> Seq<char>;

    fn new(uri: &str) -> (r: Self) where Self: Sized
        ensures
            r.spec_uri() == uri@,
    ;

    fn uri(&self) -> (r: &str)
        ensures
            r@ == self.spec_uri(),
    ;

    fn connect(&self) -> (r: String)
        ensures
            r@ == "Connecting to database: "@ + self.spec_uri(),
    {
        let mut out = String::from_str("Connecting to database: ");
        out.append(self.uri());
        out
    }
}

/// An SQL database on a server.
pub struct SQLDatabase {
    pub uri: String,
}

impl Database for SQLDatabase {}

impl RemoteDatabase for SQLDatabase {
    open spec fn spec_uri(&self) -> Seq<char> {
        self.uri@
    }

    fn new(uri: &str) -> (r: Self) {
        SQLDatabase { uri: String::from_str(uri) }
    }

    fn uri(&self) -> (r: &str) {
        self.uri.as_str()
    }

    fn connect(&self) -> (r: String) {
        let mut out = String::from_str("Connecting to database: ");
        out.append(self.uri.as_str());
        out
    }
}

/// A database held in memory.
pub struct InMemoryDatabase;

impl Database for InMemoryDatabase {}

/// An application that saves its settings to whatever database it is given.
pub struct App<D: Database> {
    pub database: D,
}

impl<D: Database> App<D> {
    pub fn new(database: D) -> (r: Self)
        ensures
            r.database == database,
    {
        App { database }
    }

    /// Stores the settings; gives the database's report of it.
    pub fn save_settings(&self) -> (r: String)
        ensures
            r@ == "Storing data: "@ + "Some data"@,
    {
        self.database.store_data("Some data")
    }
}

} // verus!
