use vstd::prelude::*;

use crate::errors::ResourceError;

verus! {

/// The confined synchronous resource: a small in-memory store of numbered
/// tables, each a growable column of unsigned values. It stands where a
/// full storage engine would: it is owned by exactly one worker for its
/// whole lifetime and is only ever touched through operations executed
/// there, one at a time.
///
/// Its mathematical model is the sequence of its tables' contents.
pub struct Resource {
    tables: Vec<Vec<u64>>,
}

impl View for Resource {
    type V = Seq<Seq<u64>>;

    closed spec fn view(&self) -> Seq<Seq<u64>> {
        Seq::new(self.tables@.len(), |i: int| self.tables@[i]@)
    }
}

impl Resource {
    /// A fresh resource with no tables.
    pub fn new() -> (r: Resource)
        ensures
            r@ == Seq::<Seq<u64>>::empty(),
    {
        let r = Resource { tables: Vec::new() };
        proof {
            assert(r@ =~= Seq::<Seq<u64>>::empty());
        }
        r
    }

    /// Append a new empty table and return its identifier, which is its
    /// position among the tables.
    pub fn create_table(&mut self) -> (id: u64)
        ensures
            final(self)@ == old(self)@.push(Seq::<u64>::empty()),
            id as int == old(self)@.len(),
    {
        let id = self.tables.len() as u64;
        self.tables.push(Vec::new());
        proof {
            assert(self@ =~= old(self)@.push(Seq::<u64>::empty()));
        }
        id
    }

    /// Append `value` to table `table` and return the new row's identifier,
    /// which is its position in the table. Fails without any change when the
    /// table does not exist.
    pub fn insert(&mut self, table: u64, value: u64) -> (r: Result<u64, ResourceError>)
        ensures
            (table as int) < old(self)@.len() ==> ({
                &&& r matches Ok(row) && row as int == old(self)@[table as int].len()
                &&& final(self)@ == old(self)@.update(
                    table as int,
                    old(self)@[table as int].push(value),
                )
            }),
            (table as int) >= old(self)@.len() ==> ({
                &&& r == Err::<u64, ResourceError>(ResourceError::NoSuchTable)
                &&& final(self)@ == old(self)@
            }),
    {
        let n = self.tables.len();
        if table >= n as u64 {
            return Err(ResourceError::NoSuchTable);
        }
        let t = table as usize;
        let row = self.tables[t].len() as u64;
        self.tables[t].push(value);
        proof {
            assert(self@ =~= old(self)@.update(
                table as int,
                old(self)@[table as int].push(value),
            ));
        }
        Ok(row)
    }

    /// Add one to the cell at `row` in `table` and return the new value.
    /// Fails without any change when the table or the row does not exist,
    /// or when the cell already holds the largest representable value.
    pub fn increment(&mut self, table: u64, row: u64) -> (r: Result<u64, ResourceError>)
        ensures
            (table as int) >= old(self)@.len() ==> ({
                &&& r == Err::<u64, ResourceError>(ResourceError::NoSuchTable)
                &&& final(self)@ == old(self)@
            }),
            (table as int) < old(self)@.len() && (row as int) >= old(self)@[table as int].len()
                ==> ({
                &&& r == Err::<u64, ResourceError>(ResourceError::NoSuchRow)
                &&& final(self)@ == old(self)@
            }),
            (table as int) < old(self)@.len() && (row as int) < old(self)@[table as int].len()
                && old(self)@[table as int][row as int] == u64::MAX ==> ({
                &&& r == Err::<u64, ResourceError>(ResourceError::Overflow)
                &&& final(self)@ == old(self)@
            }),
            (table as int) < old(self)@.len() && (row as int) < old(self)@[table as int].len()
                && old(self)@[table as int][row as int] < u64::MAX ==> ({
                &&& r == Ok::<u64, ResourceError>(
                    (old(self)@[table as int][row as int] + 1) as u64,
                )
                &&& final(self)@ == old(self)@.update(
                    table as int,
                    old(self)@[table as int].update(
                        row as int,
                        (old(self)@[table as int][row as int] + 1) as u64,
                    ),
                )
            }),
    {
        let n = self.tables.len();
        if table >= n as u64 {
            return Err(ResourceError::NoSuchTable);
        }
        let t = table as usize;
        let rows = self.tables[t].len();
        if row >= rows as u64 {
            return Err(ResourceError::NoSuchRow);
        }
        let rw = row as usize;
        let current = self.tables[t][rw];
        if current == u64::MAX {
            return Err(ResourceError::Overflow);
        }
        let updated = current + 1;
        self.tables[t][rw] = updated;
        proof {
            assert(self@ =~= old(self)@.update(
                table as int,
                old(self)@[table as int].update(row as int, updated),
            ));
        }
        Ok(updated)
    }

    /// How many rows table `table` holds. Fails when the table does not
    /// exist. Never changes the resource.
    pub fn count_rows(&self, table: u64) -> (r: Result<u64, ResourceError>)
        ensures
            (table as int) < self@.len() ==> r == Ok::<u64, ResourceError>(
                self@[table as int].len() as u64,
            ),
            (table as int) >= self@.len() ==> r == Err::<u64, ResourceError>(
                ResourceError::NoSuchTable,
            ),
    {
        let n = self.tables.len();
        if table >= n as u64 {
            return Err(ResourceError::NoSuchTable);
        }
        let t = table as usize;
        Ok(self.tables[t].len() as u64)
    }

    /// The value at `row` in `table`. Fails when the table or the row does
    /// not exist. Never changes the resource.
    pub fn read_row(&self, table: u64, row: u64) -> (r: Result<u64, ResourceError>)
        ensures
            (table as int) < self@.len() && (row as int) < self@[table as int].len() ==> r
                == Ok::<u64, ResourceError>(self@[table as int][row as int]),
            (table as int) >= self@.len() ==> r == Err::<u64, ResourceError>(
                ResourceError::NoSuchTable,
            ),
            (table as int) < self@.len() && (row as int) >= self@[table as int].len() ==> r
                == Err::<u64, ResourceError>(ResourceError::NoSuchRow),
    {
        let n = self.tables.len();
        if table >= n as u64 {
            return Err(ResourceError::NoSuchTable);
        }
        let t = table as usize;
        let rows = self.tables[t].len();
        if row >= rows as u64 {
            return Err(ResourceError::NoSuchRow);
        }
        let rw = row as usize;
        Ok(self.tables[t][rw])
    }
}

} // verus!
