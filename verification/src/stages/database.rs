//! The database server installation narrative.

use crate::rng::{chance, rand_range_u64};
use crate::session::{Interrupted, Session};
use crate::stages::emit_stage_header;
use crate::term::emit_line;
use crate::textops::concat3;
use crate::ui::progress::{ProgressBar, ProgressStyle};
use crate::ui::spinner::Spinner;
use vstd::prelude::*;

verus! {

pub struct DatabaseStage;

/// The database file created at position `pick`.
fn database_file(pick: usize) -> &'static str {
    if pick == 0 {
        "global/pg_control"
    } else if pick == 1 {
        "base/1/pg_filenode.map"
    } else if pick == 2 {
        "base/template1/pg_version"
    } else if pick == 3 {
        "pg_wal/000000010000000000000001"
    } else {
        "pg_multixact/offsets/0000"
    }
}

impl DatabaseStage {
    /// The display label of this stage.
    pub fn name(&self) -> &'static str {
        "Database Server Installation"
    }

    /// The narrated database install: cluster initialization, file
    /// creation, system tables and template databases, abandoned the
    /// instant the cancellation signal is observed.
    pub fn run<C: Fn() -> bool, S: Fn(u64)>(&self, sess: &Session<C, S>) -> (r: Result<
        (),
        Interrupted,
    >)
        requires
            sess.wf(),
        ensures
            r is Ok ==> sess.may_continue(),
            r is Err ==> sess.may_cancel(),
    {
        emit_stage_header(self.name());
        let mut spinner = Spinner::new();
        let mysql = chance(50);
        if mysql {
            emit_line("Installing MySQL Server 8.0.28...");
        } else {
            emit_line("Installing PostgreSQL Server 14.2...");
        }
        sess.pause(800)?;
        spinner.animate("Initializing database cluster...", 2000, sess)?;
        if !mysql {
            emit_line(
                "The files belonging to this database system will be owned by user \"postgres\".",
            );
            emit_line("This user must also own the server process.");
            sess.pause(500)?;
        }
        emit_line("");
        emit_line("Creating database files...");
        let mut i: usize = 0;
        while i < 5
            invariant
                sess.wf(),
                i <= 5,
            decreases 5 - i,
        {
            let line = concat3("  creating ", database_file(i), "");
            emit_line(line.as_str());
            sess.pause(rand_range_u64(150, 300))?;
            i = i + 1;
        }
        emit_line("");
        let bar = ProgressBar::new(ProgressStyle::Equals);
        bar.animate("Initializing system tables:", rand_range_u64(2000, 3500), sess)?;
        emit_line("");
        spinner.animate("Creating template databases...", 1500, sess)?;
        emit_line("Success. You can now start the database server using:");
        if mysql {
            emit_line("    mysqld -D /var/lib/mysql/data");
        } else {
            emit_line("    pg_ctl -D /var/lib/postgresql/data");
        }
        Ok(())
    }
}

} // verus!
