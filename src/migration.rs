//! The migration pipeline as a state machine. The caller performs each
//! action against the runtime or the source server and hands back what
//! happened; the machine decides the next step. The dump helper is removed
//! on every path once it has been asked for, and exactly once.
use vstd::prelude::*;
use crate::archive::{gzip_tar_of, single_file_archive};
use crate::container::{ContainerSpec, ContainerSummary, strs, joined, joined3};
use crate::migration_plan::{
    LocalPostgresConfig, MIGRATION_BASE_PORT, connection_text, connection_string, major_version,
    parse_major_version, helper_name, is_helper_spec, helper_spec, dump_command, dump_exec,
    destination_name, is_destination_spec, destination_spec, ready_command, ready_exec,
    restore_command, restore_exec, verify_command, verify_exec, restore_failed,
    restore_has_failed, find_free_port,
};
use crate::provision::port_taken;
use crate::text::{dec_text, decimal_text};

verus! {

/// How many readiness probes may fail before the migration gives up.
pub const MAX_READY_PROBES: u32 = 15;

/// Seconds to wait before the first readiness probe, and between probes.
pub const FIRST_PROBE_DELAY_SECS: u64 = 3;
pub const PROBE_INTERVAL_SECS: u64 = 2;

/// Permission bits of the uploaded dump.
pub const DUMP_FILE_MODE: u32 = 0o644;

/// A database that was moved into a managed container.
#[derive(Debug, Clone)]
pub struct MigratedDatabase {
    pub original_name: String,
    pub container_id: String,
    pub container_name: String,
    pub migrated_at: String,
    pub size: String,
}

/// Why a migration stopped; each names the step that failed.
#[derive(Debug, Clone)]
pub enum MigrationError {
    /// The source server could not be reached or queried.
    SourceUnreachable(String),
    /// The dump helper could not be created or started.
    HelperFailed(String),
    /// The dump command could not be run.
    DumpFailed(String),
    /// The dump command wrote nothing; holds its error output.
    EmptyDump(String),
    /// The live containers could not be listed.
    PortListing(String),
    /// Every host port from the base port upward is taken.
    NoPortAvailable,
    /// The destination container could not be created or started.
    DestinationFailed(String),
    /// The destination never answered its readiness probe.
    NotReady,
    /// The dump could not be packed for upload. The packer cannot refuse the
    /// fixed file name used here, so `step` never reports this.
    ArchiveFailed,
    /// The packed dump could not be uploaded.
    UploadFailed(String),
    /// The restore failed; holds its error output.
    RestoreFailed(String),
}

/// Where a migration stands.
#[derive(Debug, Clone, Copy, PartialEq, Eq, Structural)]
pub enum MigrationPhase {
    Probing,
    StartingHelper,
    Dumping,
    RemovingHelper,
    ListingPorts,
    StartingDestination,
    Polling,
    Uploading,
    Restoring,
    Verifying,
    Done,
    Failed,
}

/// The order of the phases; the pipeline never goes back.
pub open spec fn rank(p: MigrationPhase) -> nat {
    match p {
        MigrationPhase::Probing => 0,
        MigrationPhase::StartingHelper => 1,
        MigrationPhase::Dumping => 2,
        MigrationPhase::RemovingHelper => 3,
        MigrationPhase::ListingPorts => 4,
        MigrationPhase::StartingDestination => 5,
        MigrationPhase::Polling => 6,
        MigrationPhase::Uploading => 7,
        MigrationPhase::Restoring => 8,
        MigrationPhase::Verifying => 9,
        MigrationPhase::Done => 10,
        MigrationPhase::Failed => 11,
    }
}

/// What happened when the caller performed the last action.
#[derive(Debug)]
pub enum MigrationEvent {
    /// The source's version banner, or why it could not be read.
    VersionProbed(Result<String, String>),
    /// The helper was pulled, created and started, or why not.
    HelperStarted(Result<(), String>),
    /// The dump's output and error text, or why it could not run.
    DumpFinished(Result<(Vec<u8>, String), String>),
    /// The helper was removed (its removal is best effort).
    HelperRemoved,
    /// The live containers, or why they could not be listed.
    PortsListed(Result<Vec<ContainerSummary>, String>),
    /// The destination's id once started, or why it failed.
    DestinationStarted(Result<String, String>),
    /// Whether the readiness probe answered.
    ProbeFinished(bool),
    /// The upload finished, or why it failed.
    Uploaded(Result<(), String>),
    /// The restore's error output, or why it could not run.
    Restored(Result<String, String>),
    /// The verification ran (its output is only reported); `at` is the time now.
    Verified { output: Option<String>, at: String },
}

/// What the caller is to do next.
#[derive(Debug, Clone)]
pub enum MigrationAction {
    /// Connect to the source and read `SELECT version()`.
    ProbeVersion { connection: String },
    /// Pull the image, create and start the dump helper.
    StartHelper { spec: ContainerSpec },
    /// Run the dump inside the helper and collect its output.
    RunDump { container: String, cmd: Vec<String>, env: Vec<String> },
    /// Remove the helper, forcefully.
    RemoveHelper { name: String },
    /// List every container, stopped ones included.
    ListPorts,
    /// Pull the image, create and start the destination.
    StartDestination { spec: ContainerSpec },
    /// Wait, then run the readiness probe in the destination.
    ProbeReady { container: String, delay_secs: u64, cmd: Vec<String> },
    /// Upload the archive into `path` of the destination.
    Upload { container: String, path: String, archive: Vec<u8> },
    /// Run the restore in the destination.
    Restore { container: String, cmd: Vec<String> },
    /// Run the verification query in the destination.
    Verify { container: String, cmd: Vec<String> },
    /// Record the migration and report the message.
    Complete { record: MigratedDatabase, message: String },
    /// Report the failure.
    Fail(MigrationError),
}

/// One migration in progress.
pub struct Migration {
    pub source: LocalPostgresConfig,
    pub database: String,
    pub started_at: u64,
    pub phase: MigrationPhase,
    pub major: String,
    pub helper_started: bool,
    pub helper_removals: u32,
    /// A failure found while the helper existed, reported once it is removed.
    pub pending: Option<MigrationError>,
    pub dump: Vec<u8>,
    pub port: u16,
    pub container_id: String,
    pub failed_probes: u32,
}

/// The event is the answer to the action of the current phase.
pub open spec fn accepts(p: MigrationPhase, ev: MigrationEvent) -> bool {
    match ev {
        MigrationEvent::VersionProbed(_) => p == MigrationPhase::Probing,
        MigrationEvent::HelperStarted(_) => p == MigrationPhase::StartingHelper,
        MigrationEvent::DumpFinished(_) => p == MigrationPhase::Dumping,
        MigrationEvent::HelperRemoved => p == MigrationPhase::RemovingHelper,
        MigrationEvent::PortsListed(_) => p == MigrationPhase::ListingPorts,
        MigrationEvent::DestinationStarted(_) => p == MigrationPhase::StartingDestination,
        MigrationEvent::ProbeFinished(_) => p == MigrationPhase::Polling,
        MigrationEvent::Uploaded(_) => p == MigrationPhase::Uploading,
        MigrationEvent::Restored(_) => p == MigrationPhase::Restoring,
        MigrationEvent::Verified { .. } => p == MigrationPhase::Verifying,
    }
}

/// Every host port published by the containers, in order.
pub open spec fn all_ports(cs: Seq<ContainerSummary>) -> Seq<u16>
    decreases cs.len(),
{
    if cs.len() == 0 {
        Seq::empty()
    } else {
        all_ports(cs.drop_last()) + cs.last().published_ports@
    }
}

/// A port is among `all_ports` exactly when some container publishes it.
pub proof fn lemma_all_ports_taken(cs: Seq<ContainerSummary>, q: u16)
    ensures
        all_ports(cs).contains(q) <==> port_taken(cs, q),
    decreases cs.len(),
{
    if cs.len() > 0 {
        let init = cs.drop_last();
        let a = all_ports(init);
        let b = cs.last().published_ports@;
        lemma_all_ports_taken(init, q);
        if (a + b).contains(q) {
            let k = choose|k: int| 0 <= k < (a + b).len() && (a + b)[k] == q;
            if k < a.len() {
                assert(a[k] == q);
                let (i, j) = choose|i: int, j: int|
                    0 <= i < init.len() && 0 <= j < init[i].published_ports@.len()
                        && #[trigger] init[i].published_ports@[j] == q;
                assert(cs[i] == init[i]);
                assert(cs[i].published_ports@[j] == q);
            } else {
                assert(b[k - a.len()] == q);
                assert(cs[cs.len() - 1].published_ports@[k - a.len()] == q);
            }
        }
        if port_taken(cs, q) {
            let (i, j) = choose|i: int, j: int|
                0 <= i < cs.len() && 0 <= j < cs[i].published_ports@.len()
                    && #[trigger] cs[i].published_ports@[j] == q;
            if i < cs.len() - 1 {
                assert(init[i] == cs[i]);
                assert(init[i].published_ports@[j] == q);
                assert(a.contains(q));
                let k = choose|k: int| 0 <= k < a.len() && a[k] == q;
                assert((a + b)[k] == q);
            } else {
                assert((a + b)[a.len() + j] == q);
            }
        }
    }
}

/// `p` is the first port from `base` upward that no container publishes.
pub open spec fn lowest_unpublished(cs: Seq<ContainerSummary>, base: u16, p: u16) -> bool {
    &&& base <= p
    &&& !port_taken(cs, p)
    &&& forall|q: u16| base <= q < p ==> port_taken(cs, q)
}

/// Collects every port the containers publish.
pub fn collect_published_ports(containers: &Vec<ContainerSummary>) -> (r: Vec<u16>)
    ensures
        r@ == all_ports(containers@),
{
    let mut r: Vec<u16> = Vec::new();
    let mut i: usize = 0;
    while i < containers.len()
        invariant
            i <= containers@.len(),
            r@ == all_ports(containers@.take(i as int)),
        decreases containers@.len() - i,
    {
        assert(containers@.take(i + 1).drop_last() =~= containers@.take(i as int));
        let ports = &containers[i].published_ports;
        let ghost start = r@;
        let mut j: usize = 0;
        while j < ports.len()
            invariant
                j <= ports@.len(),
                r@ == start + ports@.take(j as int),
            decreases ports@.len() - j,
        {
            r.push(ports[j]);
            assert(ports@.take(j + 1) =~= ports@.take(j as int).push(ports@[j as int]));
            assert(r@ =~= start + ports@.take(j + 1));
            j = j + 1;
        }
        assert(ports@.take(ports@.len() as int) =~= ports@);
        assert(containers@.take(i + 1).last() == containers@[i as int]);
        i = i + 1;
    }
    assert(containers@.take(containers@.len() as int) =~= containers@);
    r
}

impl Migration {
    /// The machine's invariant: the helper is removed at most once, exactly
    /// once past the dump, and never before it was asked for.
    pub open spec fn wf(&self) -> bool {
        &&& self.helper_removals <= 1
        &&& (rank(self.phase) <= 2 ==> self.helper_removals == 0)
        &&& (1 <= rank(self.phase) <= 10 ==> self.helper_started)
        &&& (3 <= rank(self.phase) <= 10 ==> self.helper_removals == 1)
        &&& (self.phase == MigrationPhase::Failed ==> self.helper_removals == (
        if self.helper_started {
            1u32
        } else {
            0u32
        }))
        &&& (self.phase == MigrationPhase::Probing ==> !self.helper_started)
        &&& (self.phase != MigrationPhase::RemovingHelper ==> self.pending.is_none())
        &&& self.failed_probes < MAX_READY_PROBES
    }

    /// Starts a migration of `database` from `source`; `started_at` (seconds
    /// since the epoch) makes the helper's name unique.
    pub fn new(source: LocalPostgresConfig, database: String, started_at: u64) -> (r: (
        Migration,
        MigrationAction,
    ))
        ensures
            r.0.wf(),
            r.0.phase == MigrationPhase::Probing,
            r.0.source == source,
            r.0.database == database,
            r.0.started_at == started_at,
            r.1 matches MigrationAction::ProbeVersion { connection } && connection@
                == connection_text(source, Some(database@)),
    {
        let connection = connection_string(&source, Some(database.as_str()));
        let m = Migration {
            source,
            database,
            started_at,
            phase: MigrationPhase::Probing,
            major: String::new(),
            helper_started: false,
            helper_removals: 0,
            pending: None,
            dump: Vec::new(),
            port: 0,
            container_id: String::new(),
            failed_probes: 0,
        };
        (m, MigrationAction::ProbeVersion { connection })
    }

    /// Feeds the result of the last action and returns the next one.
    pub fn step(&mut self, ev: MigrationEvent) -> (a: MigrationAction)
        requires
            old(self).wf(),
            accepts(old(self).phase, ev),
        ensures
            final(self).wf(),
            step_spec(*old(self), ev, *final(self), a),
    {
        match ev {
            MigrationEvent::VersionProbed(res) => match res {
                Ok(banner) => {
                    self.major = parse_major_version(banner.as_str());
                    self.helper_started = true;
                    self.phase = MigrationPhase::StartingHelper;
                    MigrationAction::StartHelper {
                        spec: helper_spec(
                            self.database.as_str(),
                            self.started_at,
                            self.major.as_str(),
                        ),
                    }
                },
                Err(e) => {
                    self.phase = MigrationPhase::Failed;
                    MigrationAction::Fail(MigrationError::SourceUnreachable(e))
                },
            },
            MigrationEvent::HelperStarted(res) => {
                let name = self.helper_name_exec();
                match res {
                    Ok(()) => {
                        let (cmd, env) = dump_exec(&self.source, self.database.as_str());
                        self.phase = MigrationPhase::Dumping;
                        MigrationAction::RunDump { container: name, cmd, env }
                    },
                    Err(e) => {
                        self.pending = Some(MigrationError::HelperFailed(e));
                        self.helper_removals = self.helper_removals + 1;
                        self.phase = MigrationPhase::RemovingHelper;
                        MigrationAction::RemoveHelper { name }
                    },
                }
            },
            MigrationEvent::DumpFinished(res) => {
                let name = self.helper_name_exec();
                match res {
                    Ok((out, err)) => {
                        if out.len() == 0 {
                            self.pending = Some(MigrationError::EmptyDump(err));
                        } else {
                            self.dump = out;
                        }
                    },
                    Err(e) => {
                        self.pending = Some(MigrationError::DumpFailed(e));
                    },
                }
                self.helper_removals = self.helper_removals + 1;
                self.phase = MigrationPhase::RemovingHelper;
                MigrationAction::RemoveHelper { name }
            },
            MigrationEvent::HelperRemoved => {
                let pending = self.pending.take();
                match pending {
                    Some(e) => {
                        self.phase = MigrationPhase::Failed;
                        MigrationAction::Fail(e)
                    },
                    None => {
                        self.phase = MigrationPhase::ListingPorts;
                        MigrationAction::ListPorts
                    },
                }
            },
            MigrationEvent::PortsListed(res) => match res {
                Ok(containers) => {
                    let used = collect_published_ports(&containers);
                    let found = find_free_port(&used, MIGRATION_BASE_PORT);
                    proof {
                        assert forall|q: u16| used@.contains(q) <==> port_taken(containers@, q) by {
                            lemma_all_ports_taken(containers@, q);
                        }
                    }
                    match found {
                        Some(p) => {
                            self.port = p;
                            self.phase = MigrationPhase::StartingDestination;
                            MigrationAction::StartDestination {
                                spec: destination_spec(
                                    &self.source,
                                    self.database.as_str(),
                                    self.major.as_str(),
                                    p,
                                ),
                            }
                        },
                        None => {
                            self.phase = MigrationPhase::Failed;
                            MigrationAction::Fail(MigrationError::NoPortAvailable)
                        },
                    }
                },
                Err(e) => {
                    self.phase = MigrationPhase::Failed;
                    MigrationAction::Fail(MigrationError::PortListing(e))
                },
            },
            MigrationEvent::DestinationStarted(res) => match res {
                Ok(id) => {
                    self.container_id = id;
                    self.failed_probes = 0;
                    self.phase = MigrationPhase::Polling;
                    MigrationAction::ProbeReady {
                        container: self.container_id.clone(),
                        delay_secs: FIRST_PROBE_DELAY_SECS,
                        cmd: ready_exec(&self.source),
                    }
                },
                Err(e) => {
                    self.phase = MigrationPhase::Failed;
                    MigrationAction::Fail(MigrationError::DestinationFailed(e))
                },
            },
            MigrationEvent::ProbeFinished(ready) => {
                if ready {
                    match single_file_archive("dump.sql", DUMP_FILE_MODE, &self.dump) {
                        Some(archive) => {
                            self.phase = MigrationPhase::Uploading;
                            MigrationAction::Upload {
                                container: self.container_id.clone(),
                                path: String::from_str("/tmp"),
                                archive,
                            }
                        },
                        None => {
                            self.phase = MigrationPhase::Failed;
                            MigrationAction::Fail(MigrationError::ArchiveFailed)
                        },
                    }
                } else if self.failed_probes + 1 >= MAX_READY_PROBES {
                    self.phase = MigrationPhase::Failed;
                    MigrationAction::Fail(MigrationError::NotReady)
                } else {
                    self.failed_probes = self.failed_probes + 1;
                    MigrationAction::ProbeReady {
                        container: self.container_id.clone(),
                        delay_secs: PROBE_INTERVAL_SECS,
                        cmd: ready_exec(&self.source),
                    }
                }
            },
            MigrationEvent::Uploaded(res) => match res {
                Ok(()) => {
                    self.phase = MigrationPhase::Restoring;
                    MigrationAction::Restore {
                        container: self.container_id.clone(),
                        cmd: restore_exec(&self.source, self.database.as_str()),
                    }
                },
                Err(e) => {
                    self.phase = MigrationPhase::Failed;
                    MigrationAction::Fail(MigrationError::UploadFailed(e))
                },
            },
            MigrationEvent::Restored(res) => match res {
                Ok(stderr) => {
                    if restore_has_failed(stderr.as_str()) {
                        self.phase = MigrationPhase::Failed;
                        MigrationAction::Fail(MigrationError::RestoreFailed(stderr))
                    } else {
                        self.phase = MigrationPhase::Verifying;
                        MigrationAction::Verify {
                            container: self.container_id.clone(),
                            cmd: verify_exec(&self.source, self.database.as_str()),
                        }
                    }
                },
                Err(e) => {
                    self.phase = MigrationPhase::Failed;
                    MigrationAction::Fail(MigrationError::RestoreFailed(e))
                },
            },
            MigrationEvent::Verified { output, at } => {
                self.phase = MigrationPhase::Done;
                let name = joined("migrated-", self.database.as_str());
                let record = MigratedDatabase {
                    original_name: self.database.clone(),
                    container_id: self.container_id.clone(),
                    container_name: name.clone(),
                    migrated_at: at,
                    size: String::from_str("Unknown"),
                };
                let mut message = joined3("Database '", self.database.as_str(), "' migrated successfully to container '");
                message.append(name.as_str());
                message.append("' on port ");
                message.append(decimal_text(self.port as u64).as_str());
                MigrationAction::Complete { record, message }
            },
        }
    }

    fn helper_name_exec(&self) -> (r: String)
        ensures
            r@ == helper_name(self.database@, self.started_at),
    {
        let mut r = joined3("temp-dump-", self.database.as_str(), "-");
        r.append(decimal_text(self.started_at).as_str());
        r
    }
}

/// The request and what was learned so far are kept from `pre` to `post`.
pub open spec fn keeps_request(pre: Migration, post: Migration) -> bool {
    &&& post.source == pre.source
    &&& post.database == pre.database
    &&& post.started_at == pre.started_at
}

/// What one step does, phase by phase.
pub open spec fn step_spec(pre: Migration, ev: MigrationEvent, post: Migration, a: MigrationAction) -> bool {
    let db = pre.database@;
    let src = pre.source;
    &&& keeps_request(pre, post)
    &&& rank(post.phase) >= rank(pre.phase)
    &&& post.helper_removals == pre.helper_removals + if a is RemoveHelper {
        1u32
    } else {
        0u32
    }
    &&& (a is Fail <==> post.phase == MigrationPhase::Failed)
    &&& match ev {
        MigrationEvent::VersionProbed(Ok(banner)) => {
            &&& post.phase == MigrationPhase::StartingHelper
            &&& post.major@ == major_version(banner@)
            &&& a matches MigrationAction::StartHelper { spec } && is_helper_spec(
                spec,
                db,
                pre.started_at,
                post.major@,
            )
        },
        MigrationEvent::VersionProbed(Err(e)) => a matches MigrationAction::Fail(
            MigrationError::SourceUnreachable(x),
        ) && x == e,
        MigrationEvent::HelperStarted(Ok(())) => {
            &&& post.phase == MigrationPhase::Dumping
            &&& a matches MigrationAction::RunDump { container, cmd, env } && container@
                == helper_name(db, pre.started_at) && strs(cmd@) == dump_command(src, db)
                && strs(env@) == seq!["PGPASSWORD="@ + src.password@]
        },
        MigrationEvent::HelperStarted(Err(e)) => {
            &&& post.phase == MigrationPhase::RemovingHelper
            &&& post.pending matches Some(MigrationError::HelperFailed(x)) && x == e
            &&& a matches MigrationAction::RemoveHelper { name } && name@ == helper_name(
                db,
                pre.started_at,
            )
        },
        MigrationEvent::DumpFinished(res) => {
            &&& post.phase == MigrationPhase::RemovingHelper
            &&& a matches MigrationAction::RemoveHelper { name } && name@ == helper_name(
                db,
                pre.started_at,
            )
            &&& match res {
                Ok((out, err)) => if out@.len() == 0 {
                    post.pending matches Some(MigrationError::EmptyDump(x)) && x == err
                } else {
                    post.pending.is_none() && post.dump@ == out@
                },
                Err(e) => post.pending matches Some(MigrationError::DumpFailed(x)) && x == e,
            }
        },
        MigrationEvent::HelperRemoved => match pre.pending {
            Some(e) => a matches MigrationAction::Fail(x) && x == e,
            None => post.phase == MigrationPhase::ListingPorts && a is ListPorts && post.dump
                == pre.dump,
        },
        MigrationEvent::PortsListed(Ok(cs)) => {
            if exists|p: u16| lowest_unpublished(cs@, MIGRATION_BASE_PORT, p) {
                &&& post.phase == MigrationPhase::StartingDestination
                &&& lowest_unpublished(cs@, MIGRATION_BASE_PORT, post.port)
                &&& a matches MigrationAction::StartDestination { spec } && is_destination_spec(
                    spec,
                    src,
                    db,
                    pre.major@,
                    post.port,
                )
            } else {
                a matches MigrationAction::Fail(MigrationError::NoPortAvailable)
            }
        },
        MigrationEvent::PortsListed(Err(e)) => a matches MigrationAction::Fail(
            MigrationError::PortListing(x),
        ) && x == e,
        MigrationEvent::DestinationStarted(Ok(id)) => {
            &&& post.phase == MigrationPhase::Polling
            &&& post.container_id == id
            &&& post.failed_probes == 0
            &&& a matches MigrationAction::ProbeReady { container, delay_secs, cmd } && container
                == id && delay_secs == FIRST_PROBE_DELAY_SECS && strs(cmd@) == ready_command(src)
        },
        MigrationEvent::DestinationStarted(Err(e)) => a matches MigrationAction::Fail(
            MigrationError::DestinationFailed(x),
        ) && x == e,
        MigrationEvent::ProbeFinished(true) => match a {
            MigrationAction::Upload { container, path, archive } => {
                &&& post.phase == MigrationPhase::Uploading
                &&& container == pre.container_id
                &&& path@ == "/tmp"@
                &&& archive@ == gzip_tar_of("dump.sql"@, DUMP_FILE_MODE, pre.dump@)
            },
            _ => false,
        },
        MigrationEvent::ProbeFinished(false) => if pre.failed_probes + 1 >= MAX_READY_PROBES {
            a matches MigrationAction::Fail(MigrationError::NotReady)
        } else {
            &&& post.phase == MigrationPhase::Polling
            &&& post.failed_probes == pre.failed_probes + 1
            &&& post.container_id == pre.container_id
            &&& a matches MigrationAction::ProbeReady { container, delay_secs, cmd } && container
                == pre.container_id && delay_secs == PROBE_INTERVAL_SECS && strs(cmd@)
                == ready_command(src)
        },
        MigrationEvent::Uploaded(Ok(())) => {
            &&& post.phase == MigrationPhase::Restoring
            &&& post.container_id == pre.container_id
            &&& a matches MigrationAction::Restore { container, cmd } && container
                == pre.container_id && strs(cmd@) == restore_command(src, db)
        },
        MigrationEvent::Uploaded(Err(e)) => a matches MigrationAction::Fail(
            MigrationError::UploadFailed(x),
        ) && x == e,
        MigrationEvent::Restored(Ok(stderr)) => if restore_failed(stderr@) {
            a matches MigrationAction::Fail(MigrationError::RestoreFailed(x)) && x == stderr
        } else {
            &&& post.phase == MigrationPhase::Verifying
            &&& post.container_id == pre.container_id
            &&& a matches MigrationAction::Verify { container, cmd } && container
                == pre.container_id && strs(cmd@) == verify_command(src, db)
        },
        MigrationEvent::Restored(Err(e)) => a matches MigrationAction::Fail(
            MigrationError::RestoreFailed(x),
        ) && x == e,
        MigrationEvent::Verified { output, at } => {
            &&& post.phase == MigrationPhase::Done
            &&& a matches MigrationAction::Complete { record, message } && record.original_name@
                == db && record.container_id == pre.container_id && record.container_name@
                == destination_name(db) && record.migrated_at == at && record.size@
                == "Unknown"@ && message@ == "Database '"@ + db
                + "' migrated successfully to container '"@ + destination_name(db)
                + "' on port "@ + dec_text(pre.port as nat)
        },
    }
}

/// Once a migration has finished, by success or by failure, a helper that
/// was asked for has been removed exactly once.
pub proof fn lemma_helper_removed_once(m: Migration)
    requires
        m.wf(),
        m.helper_started,
        m.phase == MigrationPhase::Done || m.phase == MigrationPhase::Failed,
    ensures
        m.helper_removals == 1,
{
}

/// A dump with no output makes the migration fail with the dump's error
/// text, right after the helper is removed.
pub proof fn lemma_empty_dump_fails(
    pre: Migration,
    out: Vec<u8>,
    err: String,
    mid: Migration,
    a1: MigrationAction,
    post: Migration,
    a2: MigrationAction,
)
    requires
        pre.wf(),
        pre.phase == MigrationPhase::Dumping,
        out@.len() == 0,
        step_spec(pre, MigrationEvent::DumpFinished(Ok((out, err))), mid, a1),
        mid.wf(),
        step_spec(mid, MigrationEvent::HelperRemoved, post, a2),
    ensures
        a1 is RemoveHelper,
        a2 matches MigrationAction::Fail(MigrationError::EmptyDump(x)) && x == err,
        post.phase == MigrationPhase::Failed,
        post.helper_removals == 1,
{
}

/// The readiness poll: a probe that fails while fewer than the bound have
/// failed is retried, the failure that reaches the bound ends the migration
/// as not ready, and a probe that answers moves the migration past the poll.
pub proof fn lemma_readiness_poll(pre: Migration, ready: bool, post: Migration, a: MigrationAction)
    requires
        pre.wf(),
        pre.phase == MigrationPhase::Polling,
        step_spec(pre, MigrationEvent::ProbeFinished(ready), post, a),
    ensures
        ready ==> post.phase == MigrationPhase::Uploading && a is Upload,
        !ready && pre.failed_probes + 1 >= MAX_READY_PROBES ==> (a matches MigrationAction::Fail(
            MigrationError::NotReady,
        )),
        !ready && pre.failed_probes + 1 < MAX_READY_PROBES ==> post.phase == MigrationPhase::Polling
            && post.failed_probes == pre.failed_probes + 1,
{
}

} // verus!
