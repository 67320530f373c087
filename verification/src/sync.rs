//! From a document to the store and back.
//!
//! An amendment writes the fields that a document has and leaves the rest of
//! the store alone; an overwrite empties the two lists of the store first.
//! Neither touches a store here: each gives the commands to run, in the order
//! in which they are to be run, and [`next_step`] tells whoever runs them how
//! to go on after each answer of the store: it stops at the first refusal, and
//! what ran before it stays done. Reading goes the other way, from what four
//! queries brought back to the document.

use vstd::prelude::*;
use crate::document::{
    mount_points_view, strings_view, users_view, Config, ConfigError, ConfigUser,
    ConfigUserView, ConfigView, DDNSConfig, MiscSettingsView, MountPoint, MountPointView,
};
use crate::store::{
    commands_view, lemma_run_concat, lemma_run_leaves_unwritten, lemma_run_one, run_spec,
    run_until_spec, writes_ddns, writes_mount_points, writes_settings, writes_users, Store,
    StoreCommand, StoreCommandView, StoreView,
};

verus! {

/// The commands that empty the two lists of the store.
pub open spec fn reset_spec() -> Seq<StoreCommandView> {
    seq![StoreCommandView::DeleteMountPoints, StoreCommandView::DeleteUsers]
}

/// One insertion for each user, in the order of the list.
pub open spec fn insert_users_spec(users: Seq<ConfigUserView>) -> Seq<StoreCommandView> {
    users.map_values(|user: ConfigUserView| StoreCommandView::InsertUser(user))
}

/// What an amendment does about the mount points: nothing where the document
/// is silent, else all of them go and the document's come in.
pub open spec fn mount_point_commands(document: ConfigView) -> Seq<StoreCommandView> {
    match document.mount_dirs {
        Some(list) => seq![
            StoreCommandView::DeleteMountPoints,
            StoreCommandView::InsertMountPoints(list),
        ],
        None => Seq::empty(),
    }
}

/// What an amendment does about the users: nothing where the document is
/// silent, else all of them go and the document's come in one by one.
pub open spec fn user_commands(document: ConfigView) -> Seq<StoreCommandView> {
    match document.users {
        Some(list) => seq![StoreCommandView::DeleteUsers] + insert_users_spec(list),
        None => Seq::empty(),
    }
}

/// What an amendment does about the global settings: the delay first, then the
/// pattern, each only where the document has it.
pub open spec fn settings_commands(document: ConfigView) -> Seq<StoreCommandView> {
    let delay = match document.reindex_every_n_seconds {
        Some(seconds) => seq![StoreCommandView::SetSleepDuration(seconds)],
        None => Seq::empty(),
    };
    let pattern = match document.album_art_pattern {
        Some(pattern) => seq![StoreCommandView::SetAlbumArtPattern(pattern)],
        None => Seq::empty(),
    };
    delay + pattern
}

/// What an amendment does about the dynamic DNS account.
pub open spec fn ddns_commands(document: ConfigView) -> Seq<StoreCommandView> {
    match document.ydns {
        Some(account) => seq![StoreCommandView::UpdateDdns(account)],
        None => Seq::empty(),
    }
}

/// The commands of an amendment: mount points, users, global settings and the
/// dynamic DNS account, in this order.
pub open spec fn ammend_spec(document: ConfigView) -> Seq<StoreCommandView> {
    mount_point_commands(document) + user_commands(document) + settings_commands(document)
        + ddns_commands(document)
}

/// The commands of an overwrite: those that empty the lists, then those of the
/// amendment.
pub open spec fn overwrite_spec(document: ConfigView) -> Seq<StoreCommandView> {
    reset_spec() + ammend_spec(document)
}

/// A user of the given name with an empty password.
pub open spec fn user_without_password(name: Seq<char>) -> ConfigUserView {
    ConfigUserView { name, password: Seq::empty() }
}

/// The document that stands for what a store holds: every field is there, and
/// every password of a user is empty.
pub open spec fn read_spec(store: StoreView) -> ConfigView {
    ConfigView {
        album_art_pattern: Some(store.misc.index_album_art_pattern),
        reindex_every_n_seconds: Some(store.misc.index_sleep_duration_seconds),
        mount_dirs: Some(store.mount_points),
        users: Some(store.user_names.map_values(|name: Seq<char>| user_without_password(name))),
        ydns: Some(store.ddns),
    }
}

/// The commands that empty the mount points and the users, whatever a
/// document says.
pub fn reset() -> (commands: Vec<StoreCommand>)
    ensures
        commands_view(commands@) == reset_spec(),
{
    let mut commands: Vec<StoreCommand> = Vec::new();
    commands.push(StoreCommand::DeleteMountPoints);
    commands.push(StoreCommand::DeleteUsers);
    assert(commands_view(commands@) =~= reset_spec());
    commands
}

/// A copy of a list of mount points.
fn copy_mount_points(list: &Vec<MountPoint>) -> (copy: Vec<MountPoint>)
    ensures
        mount_points_view(copy@) == mount_points_view(list@),
{
    let mut copy: Vec<MountPoint> = Vec::new();
    let mut i: usize = 0;
    while i < list.len()
        invariant
            i <= list.len(),
            copy@ == list@.take(i as int),
        decreases list.len() - i,
    {
        copy.push(list[i].clone());
        assert(copy@ =~= list@.take(i + 1));
        i += 1;
    }
    assert(list@.take(list.len() as int) =~= list@);
    copy
}

/// Puts behind `commands` what an amendment does about the mount points.
fn push_mount_point_commands(commands: &mut Vec<StoreCommand>, new_config: &Config)
    ensures
        commands_view(final(commands)@) == commands_view(old(commands)@) + mount_point_commands(
            new_config@,
        ),
{
    if let Some(mount_dirs) = &new_config.mount_dirs {
        commands.push(StoreCommand::DeleteMountPoints);
        commands.push(StoreCommand::InsertMountPoints(copy_mount_points(mount_dirs)));
    }
    assert(commands_view(commands@) =~= commands_view(old(commands)@) + mount_point_commands(
        new_config@,
    ));
}

/// Puts behind `commands` what an amendment does about the users.
fn push_user_commands(commands: &mut Vec<StoreCommand>, new_config: &Config)
    ensures
        commands_view(final(commands)@) == commands_view(old(commands)@) + user_commands(
            new_config@,
        ),
{
    let ghost before = commands_view(commands@);
    if let Some(config_users) = &new_config.users {
        commands.push(StoreCommand::DeleteUsers);
        let ghost deleted = before + seq![StoreCommandView::DeleteUsers];
        assert(commands_view(commands@) =~= deleted);
        assert(deleted + insert_users_spec(users_view(config_users@.take(0))) =~= deleted);
        let mut i: usize = 0;
        while i < config_users.len()
            invariant
                i <= config_users.len(),
                commands_view(commands@) == deleted + insert_users_spec(
                    users_view(config_users@.take(i as int)),
                ),
            decreases config_users.len() - i,
        {
            let ghost so_far = commands@;
            commands.push(StoreCommand::InsertUser(config_users[i].clone()));
            assert(commands_view(commands@) =~= commands_view(so_far).push(
                StoreCommandView::InsertUser(config_users@[i as int]@),
            ));
            assert(insert_users_spec(users_view(config_users@.take(i + 1)))
                =~= insert_users_spec(users_view(config_users@.take(i as int))).push(
                StoreCommandView::InsertUser(config_users@[i as int]@),
            ));
            i += 1;
        }
        assert(config_users@.take(config_users.len() as int) =~= config_users@);
        assert(deleted + insert_users_spec(users_view(config_users@)) =~= before + user_commands(
            new_config@,
        ));
    } else {
        assert(before + user_commands(new_config@) =~= before);
    }
}

/// Puts behind `commands` what an amendment does about the global settings.
fn push_settings_commands(commands: &mut Vec<StoreCommand>, new_config: &Config)
    ensures
        commands_view(final(commands)@) == commands_view(old(commands)@) + settings_commands(
            new_config@,
        ),
{
    if let Some(sleep_duration) = new_config.reindex_every_n_seconds {
        commands.push(StoreCommand::SetSleepDuration(sleep_duration));
    }
    if let Some(album_art_pattern) = &new_config.album_art_pattern {
        commands.push(StoreCommand::SetAlbumArtPattern(album_art_pattern.clone()));
    }
    assert(commands_view(commands@) =~= commands_view(old(commands)@) + settings_commands(
        new_config@,
    ));
}

/// Puts behind `commands` what an amendment does about the dynamic DNS
/// account.
fn push_ddns_commands(commands: &mut Vec<StoreCommand>, new_config: &Config)
    ensures
        commands_view(final(commands)@) == commands_view(old(commands)@) + ddns_commands(
            new_config@,
        ),
{
    if let Some(ydns) = &new_config.ydns {
        commands.push(StoreCommand::UpdateDdns(ydns.clone()));
    }
    assert(commands_view(commands@) =~= commands_view(old(commands)@) + ddns_commands(
        new_config@,
    ));
}

/// The commands by which a document is written into the store field by field.
/// A field that the document leaves out gives no command, so that the store
/// keeps what it has there. A list that the document has replaces the store's
/// list as a whole, an empty one too.
pub fn ammend(new_config: &Config) -> (commands: Vec<StoreCommand>)
    ensures
        commands_view(commands@) == ammend_spec(new_config@),
{
    let mut commands: Vec<StoreCommand> = Vec::new();
    assert(commands_view(commands@) =~= Seq::empty());
    push_mount_point_commands(&mut commands, new_config);
    push_user_commands(&mut commands, new_config);
    push_settings_commands(&mut commands, new_config);
    push_ddns_commands(&mut commands, new_config);
    assert(commands_view(commands@) =~= ammend_spec(new_config@));
    commands
}

/// The commands by which a document replaces the lists of the store: both
/// lists are emptied, whether the document has them or not, and the document
/// is then written as an amendment.
pub fn overwrite(new_config: &Config) -> (commands: Vec<StoreCommand>)
    ensures
        commands_view(commands@) == overwrite_spec(new_config@),
{
    let mut commands = reset();
    let mut rest = ammend(new_config);
    let ghost first = commands@;
    let ghost second = rest@;
    commands.append(&mut rest);
    assert(commands_view(commands@) =~= commands_view(first) + commands_view(second));
    commands
}

/// The document made of what the four queries of a reading brought back: the
/// global settings, the mount points, the names of the users and the dynamic
/// DNS account. Every field of it is there, the lists are in the order in which
/// they came, and every user has an empty password.
pub fn read(
    art_pattern: String,
    sleep_duration: i32,
    mount_dirs: Vec<MountPoint>,
    usernames: Vec<String>,
    ydns: DDNSConfig,
) -> (config: Config)
    ensures
        config@ == (ConfigView {
            album_art_pattern: Some(art_pattern@),
            reindex_every_n_seconds: Some(sleep_duration as int),
            mount_dirs: Some(mount_points_view(mount_dirs@)),
            users: Some(
                strings_view(usernames@).map_values(
                    |name: Seq<char>| user_without_password(name),
                ),
            ),
            ydns: Some(ydns@),
        }),
{
    let mut users: Vec<ConfigUser> = Vec::new();
    let mut i: usize = 0;
    while i < usernames.len()
        invariant
            i <= usernames.len(),
            users_view(users@) == strings_view(usernames@.take(i as int)).map_values(
                |name: Seq<char>| user_without_password(name),
            ),
        decreases usernames.len() - i,
    {
        let ghost so_far = users@;
        users.push(ConfigUser { name: usernames[i].clone(), password: String::new() });
        assert(users_view(users@) =~= users_view(so_far).push(
            user_without_password(usernames@[i as int]@),
        ));
        assert(strings_view(usernames@.take(i + 1)).map_values(
            |name: Seq<char>| user_without_password(name),
        ) =~= strings_view(usernames@.take(i as int)).map_values(
            |name: Seq<char>| user_without_password(name),
        ).push(user_without_password(usernames@[i as int]@)));
        i += 1;
    }
    assert(usernames@.take(usernames.len() as int) =~= usernames@);
    Config {
        album_art_pattern: Some(art_pattern),
        reindex_every_n_seconds: Some(sleep_duration),
        mount_dirs: Some(mount_dirs),
        users: Some(users),
        ydns: Some(ydns),
    }
}

/// The names of the users of a list, in its order.
pub open spec fn user_names_spec(users: Seq<ConfigUserView>) -> Seq<Seq<char>> {
    users.map_values(|user: ConfigUserView| user.name)
}

/// The store that an amendment leaves where every command of it succeeded:
/// each part is the document's where the document has it, and the store's own
/// where it has not. The secret and the number of the settings row stay.
pub open spec fn ammended_spec(store: StoreView, document: ConfigView) -> StoreView {
    StoreView {
        misc: MiscSettingsView {
            index_sleep_duration_seconds: match document.reindex_every_n_seconds {
                Some(seconds) => seconds,
                None => store.misc.index_sleep_duration_seconds,
            },
            index_album_art_pattern: match document.album_art_pattern {
                Some(pattern) => pattern,
                None => store.misc.index_album_art_pattern,
            },
            ..store.misc
        },
        mount_points: match document.mount_dirs {
            Some(list) => list,
            None => store.mount_points,
        },
        user_names: match document.users {
            Some(list) => user_names_spec(list),
            None => store.user_names,
        },
        ddns: match document.ydns {
            Some(account) => account,
            None => store.ddns,
        },
    }
}

/// The store that an overwrite leaves where every command of it succeeded: the
/// lists are the document's, and empty where it has none; the rest is as after
/// an amendment.
pub open spec fn overwritten_spec(store: StoreView, document: ConfigView) -> StoreView {
    StoreView {
        mount_points: match document.mount_dirs {
            Some(list) => list,
            None => Seq::empty(),
        },
        user_names: match document.users {
            Some(list) => user_names_spec(list),
            None => Seq::empty(),
        },
        ..ammended_spec(store, document)
    }
}

/// The document with the password of every user emptied.
pub open spec fn without_passwords(document: ConfigView) -> ConfigView {
    ConfigView {
        users: match document.users {
            Some(list) => Some(
                list.map_values(|user: ConfigUserView| user_without_password(user.name)),
            ),
            None => None,
        },
        ..document
    }
}

/// Inserting users one by one puts their names behind those that are there
/// and changes nothing else.
pub proof fn lemma_insert_users(store: StoreView, users: Seq<ConfigUserView>)
    ensures
        run_spec(store, insert_users_spec(users)) == (StoreView {
            user_names: store.user_names + user_names_spec(users),
            ..store
        }),
    decreases users.len(),
{
    if users.len() == 0 {
        assert(store.user_names + user_names_spec(users) =~= store.user_names);
    } else {
        let front = users.drop_last();
        lemma_insert_users(store, front);
        assert(insert_users_spec(users).drop_last() =~= insert_users_spec(front));
        assert(insert_users_spec(users).last() == StoreCommandView::InsertUser(users.last()));
        assert((store.user_names + user_names_spec(front)).push(users.last().name)
            =~= store.user_names + user_names_spec(users));
    }
}

/// What an amendment does about the mount points leaves them as the amended
/// store has them, and nothing else changed.
pub proof fn lemma_run_mount_point_commands(store: StoreView, document: ConfigView)
    ensures
        run_spec(store, mount_point_commands(document)) == (StoreView {
            mount_points: ammended_spec(store, document).mount_points,
            ..store
        }),
{
    match document.mount_dirs {
        Some(list) => {
            let delete = seq![StoreCommandView::DeleteMountPoints];
            let insert = seq![StoreCommandView::InsertMountPoints(list)];
            assert(mount_point_commands(document) =~= delete + insert);
            lemma_run_concat(store, delete, insert);
            lemma_run_one(store, StoreCommandView::DeleteMountPoints);
            lemma_run_one(run_spec(store, delete), StoreCommandView::InsertMountPoints(list));
            assert(Seq::<MountPointView>::empty() + list =~= list);
        },
        None => {},
    }
}

/// What an amendment does about the users leaves their names as the amended
/// store has them, and nothing else changed.
pub proof fn lemma_run_user_commands(store: StoreView, document: ConfigView)
    ensures
        run_spec(store, user_commands(document)) == (StoreView {
            user_names: ammended_spec(store, document).user_names,
            ..store
        }),
{
    match document.users {
        Some(list) => {
            let delete = seq![StoreCommandView::DeleteUsers];
            lemma_run_concat(store, delete, insert_users_spec(list));
            lemma_run_one(store, StoreCommandView::DeleteUsers);
            lemma_insert_users(run_spec(store, delete), list);
            assert(Seq::<Seq<char>>::empty() + user_names_spec(list) =~= user_names_spec(list));
        },
        None => {},
    }
}

/// What an amendment does about the global settings leaves the row as the
/// amended store has it, and nothing else changed.
pub proof fn lemma_run_settings_commands(store: StoreView, document: ConfigView)
    ensures
        run_spec(store, settings_commands(document)) == (StoreView {
            misc: ammended_spec(store, document).misc,
            ..store
        }),
{
    let delay = match document.reindex_every_n_seconds {
        Some(seconds) => seq![StoreCommandView::SetSleepDuration(seconds)],
        None => Seq::empty(),
    };
    let pattern = match document.album_art_pattern {
        Some(pattern) => seq![StoreCommandView::SetAlbumArtPattern(pattern)],
        None => Seq::empty(),
    };
    lemma_run_concat(store, delay, pattern);
    let after_delay = run_spec(store, delay);
    match document.reindex_every_n_seconds {
        Some(seconds) => {
            lemma_run_one(store, StoreCommandView::SetSleepDuration(seconds));
        },
        None => {},
    }
    match document.album_art_pattern {
        Some(pattern) => {
            lemma_run_one(after_delay, StoreCommandView::SetAlbumArtPattern(pattern));
        },
        None => {},
    }
}

/// What an amendment does about the dynamic DNS account leaves it as the
/// amended store has it, and nothing else changed.
pub proof fn lemma_run_ddns_commands(store: StoreView, document: ConfigView)
    ensures
        run_spec(store, ddns_commands(document)) == (StoreView {
            ddns: ammended_spec(store, document).ddns,
            ..store
        }),
{
    match document.ydns {
        Some(account) => {
            lemma_run_one(store, StoreCommandView::UpdateDdns(account));
        },
        None => {},
    }
}

/// An amendment whose commands all succeed leaves the store that
/// [`ammended_spec`] describes.
pub proof fn lemma_ammend_runs_to(store: StoreView, document: ConfigView)
    ensures
        run_spec(store, ammend_spec(document)) == ammended_spec(store, document),
{
    let mounts = mount_point_commands(document);
    let users = user_commands(document);
    let settings = settings_commands(document);
    let account = ddns_commands(document);
    lemma_run_concat(store, mounts + users + settings, account);
    lemma_run_concat(store, mounts + users, settings);
    lemma_run_concat(store, mounts, users);
    lemma_run_mount_point_commands(store, document);
    let after_mounts = run_spec(store, mounts);
    lemma_run_user_commands(after_mounts, document);
    let after_users = run_spec(after_mounts, users);
    lemma_run_settings_commands(after_users, document);
    let after_settings = run_spec(after_users, settings);
    lemma_run_ddns_commands(after_settings, document);
}

/// Of a sequence that is refused within its first part, the second part does
/// not count.
proof fn lemma_refused_within(
    store: StoreView,
    first: Seq<StoreCommandView>,
    second: Seq<StoreCommandView>,
    refused: int,
)
    requires
        0 <= refused <= first.len(),
    ensures
        run_until_spec(store, first + second, refused) == run_until_spec(store, first, refused),
{
    assert((first + second).take(refused) =~= first.take(refused));
}

/// Of a sequence that is refused behind its first part, the first part has
/// run, and the second is refused from there.
proof fn lemma_refused_beyond(
    store: StoreView,
    first: Seq<StoreCommandView>,
    second: Seq<StoreCommandView>,
    refused: int,
)
    requires
        first.len() <= refused <= first.len() + second.len(),
    ensures
        run_until_spec(store, first + second, refused) == run_until_spec(
            run_spec(store, first),
            second,
            refused - first.len(),
        ),
{
    assert((first + second).take(refused) =~= first + second.take(refused - first.len()));
    lemma_run_concat(store, first, second.take(refused - first.len()));
}

/// Each command of an amendment writes to the part of the store that it is
/// for, and to no other.
proof fn lemma_commands_write_their_part(document: ConfigView)
    ensures
        forall|i: int|
            0 <= i < mount_point_commands(document).len() ==> writes_mount_points(
                #[trigger] mount_point_commands(document)[i],
            ),
        forall|i: int|
            0 <= i < user_commands(document).len() ==> writes_users(
                #[trigger] user_commands(document)[i],
            ),
        forall|i: int|
            0 <= i < settings_commands(document).len() ==> writes_settings(
                #[trigger] settings_commands(document)[i],
            ),
        forall|i: int|
            0 <= i < ddns_commands(document).len() ==> writes_ddns(
                #[trigger] ddns_commands(document)[i],
            ),
{
}

/// A refusal among the commands of one part leaves the other three parts of
/// the store as they were.
proof fn lemma_part_refused(store: StoreView, document: ConfigView, refused: int)
    ensures
        0 <= refused <= mount_point_commands(document).len() ==> ({
            let after = run_until_spec(store, mount_point_commands(document), refused);
            after.user_names == store.user_names && after.misc == store.misc && after.ddns
                == store.ddns
        }),
        0 <= refused <= user_commands(document).len() ==> ({
            let after = run_until_spec(store, user_commands(document), refused);
            after.mount_points == store.mount_points && after.misc == store.misc && after.ddns
                == store.ddns
        }),
        0 <= refused <= settings_commands(document).len() ==> ({
            let after = run_until_spec(store, settings_commands(document), refused);
            after.mount_points == store.mount_points && after.user_names == store.user_names
                && after.ddns == store.ddns
        }),
        0 <= refused <= ddns_commands(document).len() ==> ({
            let after = run_until_spec(store, ddns_commands(document), refused);
            after.mount_points == store.mount_points && after.user_names == store.user_names
                && after.misc == store.misc
        }),
{
    lemma_commands_write_their_part(document);
    if 0 <= refused <= mount_point_commands(document).len() {
        let run = mount_point_commands(document).take(refused);
        assert(forall|i: int|
            0 <= i < run.len() ==> #[trigger] run[i] == mount_point_commands(document)[i]);
        lemma_run_leaves_unwritten(store, run);
    }
    if 0 <= refused <= user_commands(document).len() {
        let run = user_commands(document).take(refused);
        assert(forall|i: int|
            0 <= i < run.len() ==> #[trigger] run[i] == user_commands(document)[i]);
        lemma_run_leaves_unwritten(store, run);
    }
    if 0 <= refused <= settings_commands(document).len() {
        let run = settings_commands(document).take(refused);
        assert(forall|i: int|
            0 <= i < run.len() ==> #[trigger] run[i] == settings_commands(document)[i]);
        lemma_run_leaves_unwritten(store, run);
    }
    if 0 <= refused <= ddns_commands(document).len() {
        let run = ddns_commands(document).take(refused);
        assert(forall|i: int|
            0 <= i < run.len() ==> #[trigger] run[i] == ddns_commands(document)[i]);
        lemma_run_leaves_unwritten(store, run);
    }
}

/// The store that an amendment leaves when it is refused among the commands
/// for the mount points: nothing but the mount points has changed, and they
/// are as they were where the deletion was refused, and gone where the
/// insertion was.
pub proof fn lemma_ammend_refused_at_mount_points(
    store: StoreView,
    document: ConfigView,
    refused: int,
)
    requires
        0 <= refused <= mount_point_commands(document).len(),
    ensures
        ({
            let after = run_until_spec(store, ammend_spec(document), refused);
            &&& after.user_names == store.user_names
            &&& after.misc == store.misc
            &&& after.ddns == store.ddns
            &&& refused == 0 ==> after.mount_points == store.mount_points
            &&& refused == 1 ==> after.mount_points == Seq::<MountPointView>::empty()
        }),
{
    let mounts = mount_point_commands(document);
    let rest = user_commands(document) + settings_commands(document) + ddns_commands(document);
    assert(ammend_spec(document) =~= mounts + rest);
    lemma_refused_within(store, mounts, rest, refused);
    lemma_part_refused(store, document, refused);
    if refused == 0 {
        assert(mounts.take(0) =~= Seq::<StoreCommandView>::empty());
    }
    if refused == 1 {
        assert(mounts.take(1) =~= seq![StoreCommandView::DeleteMountPoints]);
        lemma_run_one(store, StoreCommandView::DeleteMountPoints);
    }
}

/// The store that an amendment leaves when it is refused among the commands
/// for the users: the mount points are the amended ones, and the global
/// settings and the dynamic DNS account are as they were.
pub proof fn lemma_ammend_refused_at_users(store: StoreView, document: ConfigView, refused: int)
    requires
        mount_point_commands(document).len() <= refused <= mount_point_commands(document).len()
            + user_commands(document).len(),
    ensures
        ({
            let after = run_until_spec(store, ammend_spec(document), refused);
            &&& after.mount_points == ammended_spec(store, document).mount_points
            &&& after.misc == store.misc
            &&& after.ddns == store.ddns
        }),
{
    let mounts = mount_point_commands(document);
    let users = user_commands(document);
    let rest = settings_commands(document) + ddns_commands(document);
    assert(ammend_spec(document) =~= mounts + (users + rest));
    lemma_refused_beyond(store, mounts, users + rest, refused);
    lemma_run_mount_point_commands(store, document);
    let after_mounts = run_spec(store, mounts);
    lemma_refused_within(after_mounts, users, rest, refused - mounts.len());
    lemma_part_refused(after_mounts, document, refused - mounts.len());
}

/// The store that an amendment leaves when it is refused among the commands
/// for the global settings: mount points and users are the amended ones, and
/// the dynamic DNS account is as it was.
pub proof fn lemma_ammend_refused_at_settings(
    store: StoreView,
    document: ConfigView,
    refused: int,
)
    requires
        mount_point_commands(document).len() + user_commands(document).len() <= refused
            <= mount_point_commands(document).len() + user_commands(document).len()
            + settings_commands(document).len(),
    ensures
        ({
            let after = run_until_spec(store, ammend_spec(document), refused);
            &&& after.mount_points == ammended_spec(store, document).mount_points
            &&& after.user_names == ammended_spec(store, document).user_names
            &&& after.ddns == store.ddns
        }),
{
    let mounts = mount_point_commands(document);
    let users = user_commands(document);
    let settings = settings_commands(document);
    let account = ddns_commands(document);
    assert(ammend_spec(document) =~= (mounts + users) + (settings + account));
    lemma_refused_beyond(store, mounts + users, settings + account, refused);
    lemma_run_concat(store, mounts, users);
    lemma_run_mount_point_commands(store, document);
    lemma_run_user_commands(run_spec(store, mounts), document);
    let after_users = run_spec(store, mounts + users);
    lemma_refused_within(after_users, settings, account, refused - (mounts + users).len());
    lemma_part_refused(after_users, document, refused - (mounts + users).len());
}

/// The store that an amendment leaves when it is refused at the command for
/// the dynamic DNS account: mount points, users and global settings are the
/// amended ones, and the account is as it was.
pub proof fn lemma_ammend_refused_at_ddns(store: StoreView, document: ConfigView)
    requires
        document.ydns is Some,
    ensures
        ({
            let after = run_until_spec(
                store,
                ammend_spec(document),
                ammend_spec(document).len() - 1,
            );
            &&& after.mount_points == ammended_spec(store, document).mount_points
            &&& after.user_names == ammended_spec(store, document).user_names
            &&& after.misc == ammended_spec(store, document).misc
            &&& after.ddns == store.ddns
        }),
{
    let mounts = mount_point_commands(document);
    let users = user_commands(document);
    let settings = settings_commands(document);
    let account = ddns_commands(document);
    let front = mounts + users + settings;
    assert(ammend_spec(document) =~= front + account);
    lemma_refused_within(store, front, account, front.len() as int);
    assert(front.take(front.len() as int) =~= front);
    lemma_run_concat(store, mounts + users, settings);
    lemma_run_concat(store, mounts, users);
    lemma_run_mount_point_commands(store, document);
    lemma_run_user_commands(run_spec(store, mounts), document);
    lemma_run_settings_commands(run_spec(store, mounts + users), document);
}

/// The store that a refused reset leaves: where the first deletion is turned
/// down nothing has changed, and where the second is, the mount points are
/// gone and the users are as they were. The global settings and the dynamic
/// DNS account are as they were in either case.
pub proof fn lemma_reset_refused(store: StoreView, refused: int)
    requires
        0 <= refused <= 2,
    ensures
        ({
            let after = run_until_spec(store, reset_spec(), refused);
            &&& after.misc == store.misc
            &&& after.ddns == store.ddns
            &&& refused == 0 ==> after == store
            &&& refused >= 1 ==> after.mount_points == Seq::<MountPointView>::empty()
            &&& refused <= 1 ==> after.user_names == store.user_names
            &&& refused == 2 ==> after.user_names == Seq::<Seq<char>>::empty()
        }),
{
    let delete_mounts = seq![StoreCommandView::DeleteMountPoints];
    let delete_users = seq![StoreCommandView::DeleteUsers];
    assert(reset_spec() =~= delete_mounts + delete_users);
    lemma_run_one(store, StoreCommandView::DeleteMountPoints);
    if refused == 0 {
        assert(reset_spec().take(0) =~= Seq::<StoreCommandView>::empty());
    } else if refused == 1 {
        assert(reset_spec().take(1) =~= delete_mounts);
    } else {
        assert(reset_spec().take(2) =~= delete_mounts + delete_users);
        lemma_run_concat(store, delete_mounts, delete_users);
        lemma_run_one(run_spec(store, delete_mounts), StoreCommandView::DeleteUsers);
    }
}

/// The store that a refused overwrite leaves. Where one of the two deletions
/// is turned down, the amendment is not begun: the store is what the refused
/// reset leaves. Where a command of the amendment is turned down, the lists
/// are not put back: the store is what the refused amendment leaves of the
/// emptied store.
pub proof fn lemma_overwrite_refused(store: StoreView, document: ConfigView, refused: int)
    requires
        0 <= refused <= overwrite_spec(document).len(),
    ensures
        refused <= 2 ==> run_until_spec(store, overwrite_spec(document), refused)
            == run_until_spec(store, reset_spec(), refused),
        refused >= 2 ==> run_until_spec(store, overwrite_spec(document), refused)
            == run_until_spec(
            run_spec(store, reset_spec()),
            ammend_spec(document),
            refused - 2,
        ),
{
    let all = overwrite_spec(document);
    if refused <= 2 {
        assert(all.take(refused) =~= reset_spec().take(refused));
    }
    if refused >= 2 {
        assert(all.take(refused) =~= reset_spec() + ammend_spec(document).take(refused - 2));
        lemma_run_concat(store, reset_spec(), ammend_spec(document).take(refused - 2));
    }
}

/// An overwrite whose commands all succeed leaves the store that
/// [`overwritten_spec`] describes.
pub proof fn lemma_overwrite_runs_to(store: StoreView, document: ConfigView)
    ensures
        run_spec(store, overwrite_spec(document)) == overwritten_spec(store, document),
{
    let delete_mounts = seq![StoreCommandView::DeleteMountPoints];
    let delete_users = seq![StoreCommandView::DeleteUsers];
    assert(reset_spec() =~= delete_mounts + delete_users);
    lemma_run_concat(store, reset_spec(), ammend_spec(document));
    lemma_run_concat(store, delete_mounts, delete_users);
    lemma_run_one(store, StoreCommandView::DeleteMountPoints);
    lemma_run_one(run_spec(store, delete_mounts), StoreCommandView::DeleteUsers);
    lemma_ammend_runs_to(run_spec(store, reset_spec()), document);
}

/// Reading a store after an amendment by a document that has every field
/// gives that document back, with the password of every user emptied.
pub proof fn lemma_read_after_ammend(store: StoreView, document: ConfigView)
    requires
        document.is_complete(),
    ensures
        read_spec(run_spec(store, ammend_spec(document))) == without_passwords(document),
{
    lemma_ammend_runs_to(store, document);
    let list = document.users->Some_0;
    assert(user_names_spec(list).map_values(|name: Seq<char>| user_without_password(name))
        =~= list.map_values(|user: ConfigUserView| user_without_password(user.name)));
}

/// An amendment by a document without mount points leaves the mount points as
/// an earlier amendment left them.
pub proof fn lemma_ammend_keeps_omitted_mount_points(
    store: StoreView,
    first: ConfigView,
    second: ConfigView,
)
    requires
        second.mount_dirs is None,
    ensures
        run_spec(run_spec(store, ammend_spec(first)), ammend_spec(second)).mount_points
            == run_spec(store, ammend_spec(first)).mount_points,
{
    lemma_ammend_runs_to(run_spec(store, ammend_spec(first)), second);
}

/// An overwrite by a document without mount points leaves no mount point,
/// whatever an earlier amendment put there.
pub proof fn lemma_overwrite_clears_omitted_mount_points(
    store: StoreView,
    first: ConfigView,
    second: ConfigView,
)
    requires
        second.mount_dirs is None,
    ensures
        run_spec(run_spec(store, ammend_spec(first)), overwrite_spec(second)).mount_points
            == Seq::<MountPointView>::empty(),
{
    lemma_overwrite_runs_to(run_spec(store, ammend_spec(first)), second);
}

/// What whoever carries a list of commands out does next.
#[derive(Debug, PartialEq, Eq)]
pub enum Step {
    /// Run the command at this place of the list, and come back with the
    /// store's answer to it.
    Run(usize),
    /// Run nothing more: the call is over, with this result.
    Done(Result<(), ConfigError>),
}

/// Decides how carrying out a list of `n_commands` commands goes on, when
/// `done` of them have been run and `answer` is what the store said to the
/// last of these (`Ok` where none has been run yet).
///
/// A refusal ends the call at once: it is passed on as a `StoreError` with
/// the store's message, no command behind the refused one is run, and what ran
/// before it stays done. After an `Ok` the next command is run, and when none
/// is left the call is over and has succeeded.
pub fn next_step(n_commands: usize, done: usize, answer: Result<(), String>) -> (step: Step)
    ensures
        answer matches Err(message) ==> step == Step::Done(
            Err(ConfigError::StoreError(message)),
        ),
        answer is Ok && done < n_commands ==> step == Step::Run(done),
        answer is Ok && done >= n_commands ==> step == Step::Done(Ok(())),
{
    match answer {
        Err(message) => Step::Done(Err(ConfigError::StoreError(message))),
        Ok(()) => {
            if done < n_commands {
                Step::Run(done)
            } else {
                Step::Done(Ok(()))
            }
        },
    }
}

impl Store {
    /// The document that stands for what the store holds.
    pub fn read(&self) -> (config: Config)
        ensures
            config@ == read_spec(self@),
    {
        let mut usernames: Vec<String> = Vec::new();
        let mut i: usize = 0;
        while i < self.user_names.len()
            invariant
                i <= self.user_names.len(),
                usernames@ == self.user_names@.take(i as int),
            decreases self.user_names.len() - i,
        {
            usernames.push(self.user_names[i].clone());
            assert(usernames@ =~= self.user_names@.take(i + 1));
            i += 1;
        }
        assert(self.user_names@.take(self.user_names.len() as int) =~= self.user_names@);
        read(
            self.misc.index_album_art_pattern.clone(),
            self.misc.index_sleep_duration_seconds,
            copy_mount_points(&self.mount_points),
            usernames,
            self.ddns.clone(),
        )
    }
}

} // verus!
