//! Data migration: the registry of migrations, the status query and the
//! approve / dismiss decisions.
//!
//! Only one data directory is ever written: the application keeps running on
//! the old directory until the next start moves it. This module tells what is
//! pending and what is in it, and decides what approving or dismissing records;
//! the caller persists those marks in the settings.

use vstd::prelude::*;

use super::settings::{settings_error_text, SettingsError};
use crate::text::{decimal, push_decimal};

verus! {

/// The one registered migration: the data directory moves from
/// `~/.agents-plus/shelx` to `~/.shelx`.
pub const DATA_DIR_MIGRATION_ID: &'static str = "data-dir-agents-plus-2026-09";

/// Where this process's data directory came from.
#[derive(Debug, Clone, Copy, PartialEq, Eq, Structural)]
pub enum DataDirSource {
    /// The standard location.
    Default,
    /// The historical location.
    Legacy,
}

/// The data directory resolved at start-up.
#[derive(Debug, Clone, PartialEq, Eq)]
pub struct DataDirResolution {
    /// The directory in use.
    pub dir: String,
    /// The standard location.
    pub default_dir: String,
    /// Where `dir` came from.
    pub source: DataDirSource,
}

/// Kind of data found in a data directory.
#[derive(Debug, Clone, Copy, PartialEq, Eq, Structural)]
pub enum DataKind {
    /// The SQLite database of connections and groups.
    Database,
    /// Log files.
    Logs,
    /// Encrypted credentials of the keychain fallback.
    DegradedSecrets,
}

/// One kind of data found in a data directory, with its size.
#[derive(Debug, Clone, Copy, PartialEq, Eq, Structural)]
pub struct DataInventoryEntry {
    /// Kind.
    pub kind: DataKind,
    /// Total bytes.
    pub total_bytes: u64,
    /// Number of files.
    pub file_count: u64,
}

/// A registered migration: stable identity, dialog text, and the data
/// directory source under which it is pending.
#[derive(Debug, Clone, Copy, PartialEq, Eq)]
pub struct MigrationSpec {
    /// Stable identity (the user's choice is stored under it).
    pub id: &'static str,
    /// Dialog and settings page title.
    pub title: &'static str,
    /// Explanation.
    pub description: &'static str,
    /// The migration is pending while the data directory comes from here.
    pub pending_source: DataDirSource,
}

/// The running context the pending conditions look at.
#[derive(Debug, Clone, PartialEq, Eq)]
pub struct MigrationContext {
    /// Source of this process's data directory.
    pub source: DataDirSource,
    /// The directory in use.
    pub data_dir: String,
    /// The standard location (migration target).
    pub default_dir: String,
}

impl MigrationSpec {
    /// Whether the migration is pending in `context`.
    pub fn is_pending(&self, context: &MigrationContext) -> (b: bool)
        ensures
            b == (context.source == self.pending_source),
    {
        context.source == self.pending_source
    }
}

/// The registered data directory migration.
pub open spec fn data_dir_spec() -> MigrationSpec {
    MigrationSpec {
        id: DATA_DIR_MIGRATION_ID,
        title: "数据存储位置调整",
        description: "数据存储位置已从 ~/.agents-plus/shelx 调整为 ~/.shelx。迁移在重启应用时自动完成,耗时不足一秒。",
        pending_source: DataDirSource::Legacy,
    }
}

/// The registry, in order.
pub open spec fn registry_spec() -> Seq<MigrationSpec> {
    seq![data_dir_spec()]
}

/// The registry of migrations; new migrations are appended here.
pub fn registry() -> (r: Vec<MigrationSpec>)
    ensures
        r@ == registry_spec(),
{
    let mut r = Vec::new();
    r.push(MigrationSpec {
        id: DATA_DIR_MIGRATION_ID,
        title: "数据存储位置调整",
        description: "数据存储位置已从 ~/.agents-plus/shelx 调整为 ~/.shelx。迁移在重启应用时自动完成,耗时不足一秒。",
        pending_source: DataDirSource::Legacy,
    });
    assert(r@ =~= registry_spec());
    r
}

/// Error of the migration use cases.
#[derive(Debug, Clone, PartialEq, Eq)]
pub enum MigrationError {
    /// The identity is not registered.
    Unknown(String),
    /// The current state does not allow the operation.
    Invalid(String),
    /// Settings persistence failed.
    Settings(SettingsError),
}

/// The display text of a migration error.
pub open spec fn migration_error_text(e: MigrationError) -> Seq<char> {
    match e {
        MigrationError::Unknown(id) => "未知的数据迁移: "@ + id@,
        MigrationError::Invalid(m) => m@,
        MigrationError::Settings(s) => settings_error_text(s),
    }
}

impl MigrationError {
    /// The display text.
    pub fn message(&self) -> (m: String)
        ensures
            m@ == migration_error_text(*self),
    {
        match self {
            MigrationError::Unknown(id) => {
                let mut m = String::from_str("未知的数据迁移: ");
                m.append(id.as_str());
                m
            },
            MigrationError::Invalid(m) => m.clone(),
            MigrationError::Settings(s) => s.message(),
        }
    }
}

/// One line of the list of what a migration moves.
#[derive(Debug, Clone, PartialEq, Eq)]
pub struct MigrationItemView {
    /// What it is (such as the connection database).
    pub label: String,
    /// How much of it (such as "约 320 KB" or "2 个文件"), if known.
    pub detail: Option<String>,
}

/// A pending migration: its registered text and what the old directory holds.
#[derive(Debug, Clone, PartialEq, Eq)]
pub struct PendingMigration {
    /// Stable identity.
    pub id: &'static str,
    /// Title.
    pub title: &'static str,
    /// Explanation.
    pub description: &'static str,
    /// Source directory (the old location).
    pub source_dir: String,
    /// Target directory (the standard location).
    pub target_dir: String,
    /// What is there.
    pub items: Vec<MigrationItemView>,
}

/// The marks the user's earlier choices left in the settings.
#[derive(Debug, Clone, PartialEq, Eq)]
pub struct MigrationMarks {
    /// Migrations whose automatic prompt the user dismissed.
    pub dismissed_auto_migrations: Vec<String>,
    /// The migration approved to run at the next start.
    pub pending_migration_id: Option<String>,
}

/// The marks the status query goes by: those read from the settings, or, when
/// the settings cannot be read, none (the default settings hold none).
pub fn marks_or_none(read: Result<MigrationMarks, SettingsError>) -> (m: MigrationMarks)
    ensures
        read matches Ok(r) ==> m == r,
        read is Err ==> m.dismissed_auto_migrations@.len() == 0 && m.pending_migration_id is None,
{
    match read {
        Ok(marks) => marks,
        Err(_) => MigrationMarks { dismissed_auto_migrations: Vec::new(), pending_migration_id: None },
    }
}

/// Result of the status query.
#[derive(Debug, Clone, PartialEq, Eq)]
pub struct MigrationStatus {
    /// The directory in use.
    pub data_dir: String,
    /// Whether the directory in use is the historical location.
    pub legacy: bool,
    /// The pending migration, if any.
    pub pending: Option<PendingMigration>,
    /// The user dismissed or already approved it: no automatic prompt.
    pub auto_prompt_suppressed: bool,
}

/// The label of a kind of data.
pub open spec fn label_text(kind: DataKind) -> Seq<char> {
    match kind {
        DataKind::Database => "连接与分组配置(SQLite 数据库)"@,
        DataKind::Logs => "应用日志"@,
        DataKind::DegradedSecrets => "降级加密凭据(仅钥匙串不可用时使用)"@,
    }
}

/// Kibibytes, rounded up.
pub open spec fn kib_ceil(bytes: nat) -> nat {
    if bytes % 1024 == 0 {
        bytes / 1024
    } else {
        bytes / 1024 + 1
    }
}

/// The size note of an entry: a file count for logs, rounded-up kilobytes otherwise.
pub open spec fn detail_text(e: DataInventoryEntry) -> Seq<char> {
    match e.kind {
        DataKind::Logs => decimal(e.file_count as nat) + " 个文件"@,
        _ => "约 "@ + decimal(kib_ceil(e.total_bytes as nat)) + " KB"@,
    }
}

/// The label and detail texts of the items listed for `entries`; an old
/// directory with nothing recognised still lists one generic item.
pub open spec fn item_texts(entries: Seq<DataInventoryEntry>) -> Seq<(Seq<char>, Option<Seq<char>>)> {
    if entries.len() == 0 {
        seq![("应用数据"@, None)]
    } else {
        Seq::new(entries.len(), |i: int| (label_text(entries[i].kind), Some(detail_text(entries[i]))))
    }
}

/// The texts of a list of items.
pub open spec fn items_view(items: Seq<MigrationItemView>) -> Seq<(Seq<char>, Option<Seq<char>>)> {
    Seq::new(
        items.len(),
        |i: int|
            (
                items[i].label@,
                match items[i].detail {
                    Some(d) => Some(d@),
                    None => None,
                },
            ),
    )
}

/// The first registered migration pending under `source`.
pub open spec fn pending_spec_for(reg: Seq<MigrationSpec>, source: DataDirSource) -> Option<MigrationSpec>
    decreases reg.len(),
{
    if reg.len() == 0 {
        None
    } else if reg[0].pending_source == source {
        Some(reg[0])
    } else {
        pending_spec_for(reg.drop_first(), source)
    }
}

/// The registered migration with identity `id`.
pub open spec fn spec_by_id(reg: Seq<MigrationSpec>, id: Seq<char>) -> Option<MigrationSpec>
    decreases reg.len(),
{
    if reg.len() == 0 {
        None
    } else if reg[0].id@ == id {
        Some(reg[0])
    } else {
        spec_by_id(reg.drop_first(), id)
    }
}

/// Whether the texts of `list` include `id`.
pub open spec fn lists(list: Seq<String>, id: Seq<char>) -> bool {
    exists|i: int| 0 <= i < list.len() && #[trigger] list[i]@ == id
}

/// Whether the automatic prompt for `id` is suppressed by the marks.
pub open spec fn suppressed(marks: MigrationMarks, id: Seq<char>) -> bool {
    lists(marks.dismissed_auto_migrations@, id) || (marks.pending_migration_id matches Some(p) && p@ == id)
}

/// Data migration service.
pub struct MigrationService {
    data_dir: String,
    default_dir: String,
    source: DataDirSource,
}

/// Whether `a` and `b` hold the same text.
fn same_text(a: &str, b: &str) -> (r: bool)
    ensures
        r == (a@ == b@),
{
    String::from_str(a) == String::from_str(b)
}

impl MigrationService {
    /// The directory in use.
    pub closed spec fn data_dir(&self) -> Seq<char> {
        self.data_dir@
    }

    /// The standard location.
    pub closed spec fn default_dir(&self) -> Seq<char> {
        self.default_dir@
    }

    /// Where the directory in use came from.
    pub closed spec fn source(&self) -> DataDirSource {
        self.source
    }

    /// Builds the service from the start-up directory resolution.
    pub fn new(resolution: &DataDirResolution) -> (s: Self)
        ensures
            s.data_dir() == resolution.dir@,
            s.default_dir() == resolution.default_dir@,
            s.source() == resolution.source,
    {
        MigrationService {
            data_dir: resolution.dir.clone(),
            default_dir: resolution.default_dir.clone(),
            source: resolution.source,
        }
    }

    /// The pending condition context.
    fn context(&self) -> (c: MigrationContext)
        ensures
            c.source == self.source,
    {
        MigrationContext {
            source: self.source,
            data_dir: self.data_dir.clone(),
            default_dir: self.default_dir.clone(),
        }
    }

    /// The registered migration with identity `id`.
    fn spec(id: &str) -> (r: Option<MigrationSpec>)
        ensures
            r == spec_by_id(registry_spec(), id@),
    {
        let reg = registry();
        let mut i: usize = 0;
        assert(reg@.skip(0) =~= reg@);
        while i < reg.len()
            invariant
                i <= reg@.len(),
                reg@ == registry_spec(),
                spec_by_id(registry_spec(), id@) == spec_by_id(reg@.skip(i as int), id@),
            decreases reg@.len() - i,
        {
            assert(reg@.skip(i as int).drop_first() =~= reg@.skip(i + 1));
            if same_text(reg[i].id, id) {
                return Some(reg[i]);
            }
            i = i + 1;
        }
        None
    }

    /// The label of a kind of data.
    fn label(kind: DataKind) -> (s: String)
        ensures
            s@ == label_text(kind),
    {
        match kind {
            DataKind::Database => String::from_str("连接与分组配置(SQLite 数据库)"),
            DataKind::Logs => String::from_str("应用日志"),
            DataKind::DegradedSecrets => String::from_str("降级加密凭据(仅钥匙串不可用时使用)"),
        }
    }

    /// The size note of an entry.
    fn detail(entry: &DataInventoryEntry) -> (s: String)
        ensures
            s@ == detail_text(*entry),
    {
        match entry.kind {
            DataKind::Logs => {
                let mut s = String::new();
                push_decimal(&mut s, entry.file_count);
                s.append(" 个文件");
                s
            },
            DataKind::Database | DataKind::DegradedSecrets => {
                let b = entry.total_bytes;
                let kb = if b % 1024 == 0 { b / 1024 } else { b / 1024 + 1 };
                let mut s = String::from_str("约 ");
                push_decimal(&mut s, kb);
                s.append(" KB");
                s
            },
        }
    }

    /// The items listed for the inventory of the old directory.
    fn items(entries: &Vec<DataInventoryEntry>) -> (items: Vec<MigrationItemView>)
        ensures
            items_view(items@) == item_texts(entries@),
    {
        let mut items: Vec<MigrationItemView> = Vec::new();
        if entries.len() == 0 {
            items.push(MigrationItemView { label: String::from_str("应用数据"), detail: None });
            assert(items_view(items@) =~= item_texts(entries@));
            return items;
        }
        let mut i: usize = 0;
        while i < entries.len()
            invariant
                i <= entries@.len(),
                entries@.len() > 0,
                items_view(items@) == item_texts(entries@).subrange(0, i as int),
            decreases entries@.len() - i,
        {
            let ghost old_items = items@;
            let item = MigrationItemView {
                label: Self::label(entries[i].kind),
                detail: Some(Self::detail(&entries[i])),
            };
            let ghost entry_texts = (label_text(entries@[i as int].kind), Some(detail_text(entries@[i as int])));
            assert(item.label@ == entry_texts.0);
            items.push(item);
            assert(items_view(items@) =~= items_view(old_items).push(entry_texts));
            i = i + 1;
            assert(items_view(items@) =~= item_texts(entries@).subrange(0, i as int));
        }
        assert(item_texts(entries@).subrange(0, entries@.len() as int) =~= item_texts(entries@));
        items
    }

    /// Whether `list` holds `id`.
    fn listed(list: &Vec<String>, id: &str) -> (b: bool)
        ensures
            b == lists(list@, id@),
    {
        let key = String::from_str(id);
        let mut i: usize = 0;
        while i < list.len()
            invariant
                i <= list@.len(),
                key@ == id@,
                forall|j: int| 0 <= j < i ==> list@[j]@ != id@,
            decreases list@.len() - i,
        {
            if list[i] == key {
                return true;
            }
            i = i + 1;
        }
        false
    }

    /// The migration status, given what the old directory holds and the marks
    /// in the settings: the pending migration (if the data directory is at the
    /// historical location) with its items, and whether its automatic prompt is
    /// suppressed (dismissed, or approved and waiting for a restart).
    pub fn status(&self, entries: &Vec<DataInventoryEntry>, marks: &MigrationMarks) -> (st: MigrationStatus)
        ensures
            st.data_dir@ == self.data_dir(),
            st.legacy == (self.source() == DataDirSource::Legacy),
            pending_spec_for(registry_spec(), self.source()) is None ==> st.pending is None
                && !st.auto_prompt_suppressed,
            pending_spec_for(registry_spec(), self.source()) matches Some(spec) ==> (st.pending matches Some(p)
                && p.id == spec.id && p.title == spec.title && p.description == spec.description
                && p.source_dir@ == self.data_dir() && p.target_dir@ == self.default_dir() && items_view(
                p.items@,
            ) == item_texts(entries@) && st.auto_prompt_suppressed == suppressed(*marks, spec.id@)),
    {
        let context = self.context();
        let reg = registry();
        let mut found: Option<MigrationSpec> = None;
        let mut i: usize = 0;
        assert(reg@.skip(0) =~= reg@);
        while i < reg.len()
            invariant_except_break
                found is None,
            invariant
                i <= reg@.len(),
                reg@ == registry_spec(),
                context.source == self.source,
                pending_spec_for(registry_spec(), self.source) == pending_spec_for(
                    reg@.skip(i as int),
                    self.source,
                ),
            ensures
                found == pending_spec_for(registry_spec(), self.source),
            decreases reg@.len() - i,
        {
            assert(reg@.skip(i as int).drop_first() =~= reg@.skip(i + 1));
            assert(reg@.skip(i as int)[0] == reg@[i as int]);
            if reg[i].is_pending(&context) {
                found = Some(reg[i]);
                break;
            }
            i = i + 1;
        }
        let pending = match found {
            Some(spec) => Some(
                PendingMigration {
                    id: spec.id,
                    title: spec.title,
                    description: spec.description,
                    source_dir: self.data_dir.clone(),
                    target_dir: self.default_dir.clone(),
                    items: Self::items(entries),
                },
            ),
            None => None,
        };
        let auto_prompt_suppressed = match &pending {
            Some(p) => Self::listed(&marks.dismissed_auto_migrations, p.id) || match &marks.pending_migration_id {
                Some(m) => same_text(m.as_str(), p.id),
                None => false,
            },
            None => false,
        };
        MigrationStatus {
            data_dir: self.data_dir.clone(),
            legacy: self.source == DataDirSource::Legacy,
            pending,
            auto_prompt_suppressed,
        }
    }

    /// Approving: the identity must be registered and the migration pending.
    /// On success the caller records `id` as the pending migration, run by the
    /// next start.
    pub fn approve(&self, id: &str) -> (r: Result<(), MigrationError>)
        ensures
            spec_by_id(registry_spec(), id@) is None ==> (r matches Err(MigrationError::Unknown(s))
                && s@ == id@),
            spec_by_id(registry_spec(), id@) matches Some(spec) && spec.pending_source != self.source()
                ==> (r matches Err(MigrationError::Invalid(m)) && m@ == "当前没有可迁移的旧数据"@),
            spec_by_id(registry_spec(), id@) matches Some(spec) && spec.pending_source == self.source()
                ==> r is Ok,
    {
        let spec = match Self::spec(id) {
            Some(s) => s,
            None => return Err(MigrationError::Unknown(String::from_str(id))),
        };
        if !spec.is_pending(&self.context()) {
            return Err(MigrationError::Invalid(String::from_str("当前没有可迁移的旧数据")));
        }
        Ok(())
    }

    /// Dismissing: the identity must be registered. `Ok(None)` when it was
    /// already dismissed (nothing to record); otherwise the new dismissed list
    /// to record, `id` appended.
    pub fn dismiss(&self, id: &str, marks: &MigrationMarks) -> (r: Result<Option<Vec<String>>, MigrationError>)
        ensures
            spec_by_id(registry_spec(), id@) is None ==> (r matches Err(MigrationError::Unknown(s))
                && s@ == id@),
            spec_by_id(registry_spec(), id@) is Some && lists(marks.dismissed_auto_migrations@, id@) ==> r
                == Ok::<Option<Vec<String>>, MigrationError>(None),
            spec_by_id(registry_spec(), id@) is Some && !lists(marks.dismissed_auto_migrations@, id@) ==> (
            r matches Ok(Some(list)) && list@.len() == marks.dismissed_auto_migrations@.len() + 1
                && list@.drop_last() == marks.dismissed_auto_migrations@ && list@.last()@ == id@),
    {
        match Self::spec(id) {
            Some(_) => {},
            None => return Err(MigrationError::Unknown(String::from_str(id))),
        }
        if Self::listed(&marks.dismissed_auto_migrations, id) {
            return Ok(None);
        }
        let mut list: Vec<String> = Vec::new();
        let mut i: usize = 0;
        while i < marks.dismissed_auto_migrations.len()
            invariant
                i <= marks.dismissed_auto_migrations@.len(),
                list@ == marks.dismissed_auto_migrations@.subrange(0, i as int),
            decreases marks.dismissed_auto_migrations@.len() - i,
        {
            list.push(marks.dismissed_auto_migrations[i].clone());
            i = i + 1;
            assert(list@ =~= marks.dismissed_auto_migrations@.subrange(0, i as int));
        }
        list.push(String::from_str(id));
        assert(list@.drop_last() =~= marks.dismissed_auto_migrations@);
        Ok(Some(list))
    }
}

} // verus!
