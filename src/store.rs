//! The in-memory record of completed migrations. The caller owns it behind
//! one lock, shared by the migration and removal operations.
use vstd::prelude::*;
use crate::migration::MigratedDatabase;
use crate::text::same_text;

verus! {

/// Keeps the records of containers other than `id`.
pub open spec fn not_of(id: Seq<char>) -> spec_fn(MigratedDatabase) -> bool {
    |d: MigratedDatabase| d.container_id@ != id
}

/// The completed migrations, oldest first.
pub struct MigrationStore {
    pub records: Vec<MigratedDatabase>,
}

impl MigrationStore {
    pub fn new() -> (r: MigrationStore)
        ensures
            r.records@.len() == 0,
    {
        MigrationStore { records: Vec::new() }
    }

    /// Appends a completed migration.
    pub fn add(&mut self, record: MigratedDatabase)
        ensures
            final(self).records@ == old(self).records@.push(record),
    {
        self.records.push(record);
    }

    /// The records, oldest first.
    pub fn list(&self) -> (r: &Vec<MigratedDatabase>)
        ensures
            r@ == self.records@,
    {
        &self.records
    }

    /// Forgets every record of the container `container_id`, keeping the
    /// others in order.
    pub fn remove_container(&mut self, container_id: &str)
        ensures
            final(self).records@ == old(self).records@.filter(not_of(container_id@)),
    {
        let ghost keep = not_of(container_id@);
        let mut kept: Vec<MigratedDatabase> = Vec::new();
        let mut i: usize = 0;
        while i < self.records.len()
            invariant
                i <= self.records@.len(),
                self.records@ == old(self).records@,
                keep == not_of(container_id@),
                kept@ == self.records@.take(i as int).filter(keep),
            decreases self.records@.len() - i,
        {
            proof {
                reveal(Seq::filter);
                assert(self.records@.take(i + 1).drop_last() =~= self.records@.take(i as int));
                assert(self.records@.take(i + 1).last() == self.records@[i as int]);
                assert(keep(self.records@[i as int]) == (self.records@[i as int].container_id@
                    != container_id@));
            }
            let ghost prev = kept@;
            let ghost t = self.records@.take(i + 1);
            assert(t.filter(keep) == if keep(t.last()) {
                t.drop_last().filter(keep).push(t.last())
            } else {
                t.drop_last().filter(keep)
            });
            if !same_text(self.records[i].container_id.as_str(), container_id) {
                let c = self.records[i].clone_record();
                kept.push(c);
                assert(kept@ == prev.push(self.records@[i as int]));
            }
            assert(kept@ == self.records@.take(i + 1).filter(keep));
            i = i + 1;
        }
        assert(self.records@.take(self.records@.len() as int) =~= self.records@);
        self.records = kept;
    }
}

impl MigratedDatabase {
    /// A copy of the record.
    pub fn clone_record(&self) -> (r: MigratedDatabase)
        ensures
            r == *self,
    {
        MigratedDatabase {
            original_name: self.original_name.clone(),
            container_id: self.container_id.clone(),
            container_name: self.container_name.clone(),
            migrated_at: self.migrated_at.clone(),
            size: self.size.clone(),
        }
    }
}

} // verus!
