//! The two tables of a store and the statements that create, fill and read
//! them.

use vstd::prelude::*;
use vstd::string::StringExecFns;

verus! {

/// Where a store keeps its tables.
#[derive(Debug, PartialEq, Eq)]
pub enum Location {
    /// In memory: the tables are gone when the store is released.
    InMemory,
    /// In the file at this path, which is created when it is missing.
    File(String),
}

impl Location {
    /// The name under which the storage engine opens the location.
    pub open spec fn spec_target(self) -> Seq<char> {
        match self {
            Location::InMemory => ":memory:"@,
            Location::File(path) => path@,
        }
    }

    /// The name under which the storage engine opens the location.
    pub fn target(&self) -> (name: &str)
        ensures
            name@ == self.spec_target(),
    {
        match self {
            Location::InMemory => ":memory:",
            Location::File(path) => path.as_str(),
        }
    }
}

/// One of the five columns that both tables have, in the order of the
/// layout.
#[derive(Clone, Copy, Debug, PartialEq, Eq, Structural)]
pub enum Column {
    /// The vehicle, a signed integer.
    BusId,
    /// The instant of the report, date-time text.
    Timestamp,
    /// Degrees of latitude, a floating-point number.
    Latitude,
    /// Degrees of longitude, a floating-point number.
    Longitude,
    /// The door state, an integer: zero or one.
    DoorsOpen,
}

impl Column {
    /// The column's name in the storage.
    pub open spec fn spec_name(self) -> Seq<char> {
        match self {
            Column::BusId => "bus_id"@,
            Column::Timestamp => "timestamp"@,
            Column::Latitude => "latitude"@,
            Column::Longitude => "longitude"@,
            Column::DoorsOpen => "doors_open"@,
        }
    }

    /// The type that the storage gives the column.
    pub open spec fn spec_kind(self) -> Seq<char> {
        match self {
            Column::BusId => "INTEGER"@,
            Column::Timestamp => "TEXT"@,
            Column::Latitude => "REAL"@,
            Column::Longitude => "REAL"@,
            Column::DoorsOpen => "INTEGER"@,
        }
    }

    /// The number of the parameter that carries the column's value in an
    /// insert statement: the column's place in the layout, counted from one.
    pub open spec fn spec_parameter(self) -> int {
        match self {
            Column::BusId => 1,
            Column::Timestamp => 2,
            Column::Latitude => 3,
            Column::Longitude => 4,
            Column::DoorsOpen => 5,
        }
    }

    /// The column's part of a statement that creates a table: its name and
    /// its type.
    pub open spec fn definition(self) -> Seq<char> {
        self.spec_name() + " "@ + self.spec_kind()
    }

    pub fn name(&self) -> (name: &'static str)
        ensures
            name@ == self.spec_name(),
    {
        match self {
            Column::BusId => "bus_id",
            Column::Timestamp => "timestamp",
            Column::Latitude => "latitude",
            Column::Longitude => "longitude",
            Column::DoorsOpen => "doors_open",
        }
    }

    pub fn kind(&self) -> (kind: &'static str)
        ensures
            kind@ == self.spec_kind(),
    {
        match self {
            Column::BusId => "INTEGER",
            Column::Timestamp => "TEXT",
            Column::Latitude => "REAL",
            Column::Longitude => "REAL",
            Column::DoorsOpen => "INTEGER",
        }
    }

    pub fn parameter(&self) -> (index: usize)
        ensures
            index == self.spec_parameter(),
    {
        match self {
            Column::BusId => 1,
            Column::Timestamp => 2,
            Column::Latitude => 3,
            Column::Longitude => 4,
            Column::DoorsOpen => 5,
        }
    }
}

/// Appends the definition of `column` to `statement`.
fn append_definition(statement: &mut String, column: Column)
    ensures
        final(statement)@ == old(statement)@ + column.definition(),
{
    statement.append(column.name());
    statement.append(" ");
    statement.append(column.kind());
    assert(statement@ =~= old(statement)@ + column.definition());
}

/// One of the two tables of a store.
#[derive(Clone, Copy, Debug, PartialEq, Eq, Structural)]
pub enum Table {
    /// The history: every report ever added, none replaced.
    Records,
    /// The latest report of each vehicle.
    Status,
}

impl Table {
    /// The table's name in the storage.
    pub open spec fn spec_name(self) -> Seq<char> {
        match self {
            Table::Records => "records"@,
            Table::Status => "status"@,
        }
    }

    /// Whether the vehicle identifier is the table's primary key, so that a
    /// written row replaces the one of the same vehicle.
    pub open spec fn spec_keyed(self) -> bool {
        self == Table::Status
    }

    /// The statement that creates the table unless it exists: the five
    /// columns in the order of the layout, the first of them the primary key
    /// where the table is keyed.
    pub open spec fn create_text(self) -> Seq<char> {
        let key = if self.spec_keyed() {
            " PRIMARY KEY"@
        } else {
            Seq::empty()
        };
        "CREATE TABLE IF NOT EXISTS "@ + self.spec_name() + " ("@ + Column::BusId.definition()
            + key + ", "@ + Column::Timestamp.definition() + ", "@ + Column::Latitude.definition()
            + ", "@ + Column::Longitude.definition() + ", "@ + Column::DoorsOpen.definition()
            + ");"@
    }

    /// The statement that writes one row, with a parameter for each of the
    /// five columns.  In a keyed table the row replaces the one with its key.
    pub open spec fn insert_text(self) -> Seq<char> {
        "INSERT OR REPLACE INTO "@ + self.spec_name() + " VALUES (?, ?, ?, ?, ?);"@
    }

    /// The statement that reads every row of the table.
    pub open spec fn select_text(self) -> Seq<char> {
        "SELECT * FROM "@ + self.spec_name() + ";"@
    }

    pub fn name(&self) -> (name: &'static str)
        ensures
            name@ == self.spec_name(),
    {
        match self {
            Table::Records => "records",
            Table::Status => "status",
        }
    }

    pub fn keyed(&self) -> (keyed: bool)
        ensures
            keyed == self.spec_keyed(),
    {
        match self {
            Table::Records => false,
            Table::Status => true,
        }
    }

    pub fn create_statement(&self) -> (statement: String)
        ensures
            statement@ == self.create_text(),
    {
        let mut statement = String::from_str("CREATE TABLE IF NOT EXISTS ");
        statement.append(self.name());
        statement.append(" (");
        append_definition(&mut statement, Column::BusId);
        if self.keyed() {
            statement.append(" PRIMARY KEY");
        } else {
            assert(statement@ + Seq::<char>::empty() =~= statement@);
        }
        statement.append(", ");
        append_definition(&mut statement, Column::Timestamp);
        statement.append(", ");
        append_definition(&mut statement, Column::Latitude);
        statement.append(", ");
        append_definition(&mut statement, Column::Longitude);
        statement.append(", ");
        append_definition(&mut statement, Column::DoorsOpen);
        statement.append(");");
        statement
    }

    pub fn insert_statement(&self) -> (statement: String)
        ensures
            statement@ == self.insert_text(),
    {
        let mut statement = String::from_str("INSERT OR REPLACE INTO ");
        statement.append(self.name());
        statement.append(" VALUES (?, ?, ?, ?, ?);");
        statement
    }

    pub fn select_statement(&self) -> (statement: String)
        ensures
            statement@ == self.select_text(),
    {
        let mut statement = String::from_str("SELECT * FROM ");
        statement.append(self.name());
        statement.append(";");
        statement
    }
}

/// The script that a store runs when it is opened: it creates both tables
/// where they are missing and leaves existing ones alone.
pub open spec fn schema_text() -> Seq<char> {
    Table::Records.create_text() + "\n"@ + Table::Status.create_text()
}

/// The script that a store runs when it is opened.
pub fn schema() -> (script: String)
    ensures
        script@ == schema_text(),
{
    let mut script = Table::Records.create_statement();
    script.append("\n");
    let status = Table::Status.create_statement();
    script.append(status.as_str());
    script
}

} // verus!
