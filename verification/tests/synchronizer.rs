use config_sync::document::{
    Config, ConfigError, ConfigUser, DDNSConfig, MiscSettings, MountPoint,
};
use config_sync::store::{Store, StoreCommand};
use config_sync::sync::{ammend, next_step, overwrite, read, reset, Step};

fn _get_test_db() -> Store {
    Store::new(
        MiscSettings {
            id: 0,
            auth_secret: "secret".into(),
            index_sleep_duration_seconds: 1800,
            index_album_art_pattern: "Folder.(jpg|png)".into(),
        },
        DDNSConfig { host: "".into(), username: "".into(), password: "".into() },
    )
}

fn mount(source: &str, name: &str) -> MountPoint {
    MountPoint { source: source.into(), name: name.into() }
}

fn user(name: &str, password: &str) -> ConfigUser {
    ConfigUser { name: name.into(), password: password.into() }
}

fn empty_document() -> Config {
    Config {
        album_art_pattern: None,
        reindex_every_n_seconds: None,
        mount_dirs: None,
        users: None,
        ydns: None,
    }
}

#[test]
fn test_ammend() {
    let mut db = _get_test_db();

    let initial_config = Config {
        album_art_pattern: Some("file\\.png".into()),
        reindex_every_n_seconds: Some(123),
        mount_dirs: Some(vec![MountPoint {
            source: "C:\\Music".into(),
            name: "root".into(),
        }]),
        users: Some(vec![ConfigUser {
            name: "Teddy🐻".into(),
            password: "".into(),
        }]),
        ydns: Some(DDNSConfig {
            host: "🐻🐻🐻.ydns.eu".into(),
            username: "be🐻r".into(),
            password: "yummy🐇".into(),
        }),
    };

    let final_config = Config {
        album_art_pattern: Some("🖼️\\.jpg".into()),
        reindex_every_n_seconds: Some(7734),
        mount_dirs: Some(vec![MountPoint {
            source: "/home/music".into(),
            name: "🎵📁".into(),
        }]),
        users: Some(vec![ConfigUser {
            name: "Kermit🐸".into(),
            password: "".into(),
        }]),
        ydns: Some(DDNSConfig {
            host: "🐸🐸🐸.ydns.eu".into(),
            username: "kfr🐸g".into(),
            password: "tasty🐞".into(),
        }),
    };

    db.run(&ammend(&initial_config));
    db.run(&ammend(&final_config));
    let db_config = db.read();
    assert_eq!(db_config, final_config);
}

fn full_document() -> Config {
    Config {
        album_art_pattern: Some("file\\.png".into()),
        reindex_every_n_seconds: Some(123),
        mount_dirs: Some(vec![mount("C:\\Music", "root")]),
        users: Some(vec![user("Teddy", "")]),
        ydns: Some(DDNSConfig {
            host: "x.ydns.eu".into(),
            username: "u".into(),
            password: "p".into(),
        }),
    }
}

#[test]
fn ammend_twice_then_read_gives_the_second_document() {
    let mut store = _get_test_db();
    let second = Config {
        album_art_pattern: Some("cover\\.jpg".into()),
        reindex_every_n_seconds: Some(60),
        mount_dirs: Some(vec![mount("/srv/a", "a"), mount("/srv/b", "b")]),
        users: Some(vec![user("Kermit", "frog"), user("Piggy", "pearls")]),
        ydns: Some(DDNSConfig {
            host: "y.ydns.eu".into(),
            username: "v".into(),
            password: "q".into(),
        }),
    };
    store.run(&ammend(&full_document()));
    store.run(&ammend(&second));
    let expected = Config {
        album_art_pattern: Some("cover\\.jpg".into()),
        reindex_every_n_seconds: Some(60),
        mount_dirs: Some(vec![mount("/srv/a", "a"), mount("/srv/b", "b")]),
        users: Some(vec![user("Kermit", ""), user("Piggy", "")]),
        ydns: Some(DDNSConfig {
            host: "y.ydns.eu".into(),
            username: "v".into(),
            password: "q".into(),
        }),
    };
    assert_eq!(store.read(), expected);
}

#[test]
fn read_after_ammend_gives_the_document_without_passwords() {
    let mut store = _get_test_db();
    let document = Config {
        album_art_pattern: Some("art".into()),
        reindex_every_n_seconds: Some(-5),
        mount_dirs: Some(vec![]),
        users: Some(vec![user("a", "one"), user("b", ""), user("a", "two")]),
        ydns: Some(DDNSConfig { host: "h".into(), username: "n".into(), password: "w".into() }),
    };
    store.run(&ammend(&document));
    let expected = Config {
        album_art_pattern: Some("art".into()),
        reindex_every_n_seconds: Some(-5),
        mount_dirs: Some(vec![]),
        users: Some(vec![user("a", ""), user("b", ""), user("a", "")]),
        ydns: Some(DDNSConfig { host: "h".into(), username: "n".into(), password: "w".into() }),
    };
    assert_eq!(store.read(), expected);
    assert_eq!(store.misc.auth_secret, "secret");
    assert_eq!(store.misc.id, 0);
}

#[test]
fn ammend_gives_the_commands_in_order() {
    let commands = ammend(&Config {
        album_art_pattern: Some("file\\.png".into()),
        reindex_every_n_seconds: Some(123),
        mount_dirs: Some(vec![mount("C:\\Music", "root"), mount("/mnt", "other")]),
        users: Some(vec![user("Teddy", "honey"), user("Kermit", "")]),
        ydns: Some(DDNSConfig {
            host: "x.ydns.eu".into(),
            username: "u".into(),
            password: "p".into(),
        }),
    });
    assert_eq!(
        commands,
        vec![
            StoreCommand::DeleteMountPoints,
            StoreCommand::InsertMountPoints(vec![
                mount("C:\\Music", "root"),
                mount("/mnt", "other"),
            ]),
            StoreCommand::DeleteUsers,
            StoreCommand::InsertUser(user("Teddy", "honey")),
            StoreCommand::InsertUser(user("Kermit", "")),
            StoreCommand::SetSleepDuration(123),
            StoreCommand::SetAlbumArtPattern("file\\.png".into()),
            StoreCommand::UpdateDdns(DDNSConfig {
                host: "x.ydns.eu".into(),
                username: "u".into(),
                password: "p".into(),
            }),
        ]
    );
}

#[test]
fn ammend_of_an_empty_document_gives_no_command() {
    assert_eq!(ammend(&empty_document()), Vec::<StoreCommand>::new());
    let mut store = _get_test_db();
    store.run(&ammend(&full_document()));
    let before = store.read();
    store.run(&ammend(&empty_document()));
    assert_eq!(store.read(), before);
}

#[test]
fn ammend_of_single_fields() {
    let mut only_pattern = empty_document();
    only_pattern.album_art_pattern = Some("p".into());
    assert_eq!(ammend(&only_pattern), vec![StoreCommand::SetAlbumArtPattern("p".into())]);

    let mut only_delay = empty_document();
    only_delay.reindex_every_n_seconds = Some(i32::MAX);
    assert_eq!(ammend(&only_delay), vec![StoreCommand::SetSleepDuration(i32::MAX)]);

    let mut only_users = empty_document();
    only_users.users = Some(vec![]);
    assert_eq!(ammend(&only_users), vec![StoreCommand::DeleteUsers]);

    let mut only_mounts = empty_document();
    only_mounts.mount_dirs = Some(vec![]);
    assert_eq!(
        ammend(&only_mounts),
        vec![StoreCommand::DeleteMountPoints, StoreCommand::InsertMountPoints(vec![])]
    );
}

#[test]
fn ammend_with_an_empty_list_clears_the_table() {
    let mut store = _get_test_db();
    store.run(&ammend(&full_document()));
    assert_eq!(store.mount_points, vec![mount("C:\\Music", "root")]);
    assert_eq!(store.user_names, vec!["Teddy".to_string()]);
    let mut clearing = empty_document();
    clearing.mount_dirs = Some(vec![]);
    clearing.users = Some(vec![]);
    store.run(&ammend(&clearing));
    assert_eq!(store.mount_points, vec![]);
    assert_eq!(store.user_names, Vec::<String>::new());
    assert_eq!(store.misc.index_sleep_duration_seconds, 123);
    assert_eq!(store.misc.index_album_art_pattern, "file\\.png");
    assert_eq!(store.ddns.host, "x.ydns.eu");
}

#[test]
fn ammend_without_mount_points_keeps_them() {
    let mut store = _get_test_db();
    store.run(&ammend(&full_document()));
    let mut second = empty_document();
    second.users = Some(vec![user("Gonzo", "x")]);
    second.reindex_every_n_seconds = Some(9);
    store.run(&ammend(&second));
    assert_eq!(store.mount_points, vec![mount("C:\\Music", "root")]);
    assert_eq!(store.user_names, vec!["Gonzo".to_string()]);
    assert_eq!(store.misc.index_sleep_duration_seconds, 9);
    assert_eq!(store.misc.index_album_art_pattern, "file\\.png");
}

#[test]
fn overwrite_without_mount_points_clears_them() {
    let mut store = _get_test_db();
    store.run(&ammend(&full_document()));
    assert_eq!(store.mount_points.len(), 1);
    let mut second = empty_document();
    second.album_art_pattern = Some("new".into());
    store.run(&overwrite(&second));
    assert_eq!(store.mount_points, vec![]);
    assert_eq!(store.user_names, Vec::<String>::new());
    assert_eq!(store.misc.index_album_art_pattern, "new");
    assert_eq!(store.misc.index_sleep_duration_seconds, 123);
    assert_eq!(store.ddns.username, "u");
}

#[test]
fn overwrite_resets_and_then_ammends() {
    let mut document = empty_document();
    document.mount_dirs = Some(vec![mount("/a", "a")]);
    assert_eq!(
        overwrite(&document),
        vec![
            StoreCommand::DeleteMountPoints,
            StoreCommand::DeleteUsers,
            StoreCommand::DeleteMountPoints,
            StoreCommand::InsertMountPoints(vec![mount("/a", "a")]),
        ]
    );
    assert_eq!(
        overwrite(&empty_document()),
        vec![StoreCommand::DeleteMountPoints, StoreCommand::DeleteUsers]
    );
}

#[test]
fn reset_empties_both_lists() {
    assert_eq!(reset(), vec![StoreCommand::DeleteMountPoints, StoreCommand::DeleteUsers]);
    let mut store = _get_test_db();
    store.run(&ammend(&full_document()));
    store.run(&reset());
    assert_eq!(store.mount_points, vec![]);
    assert_eq!(store.user_names, Vec::<String>::new());
    assert_eq!(store.misc.index_sleep_duration_seconds, 123);
}

#[test]
fn read_puts_the_document_together() {
    let config = read(
        "Folder.(jpg|png)".into(),
        1800,
        vec![mount("/music", "root")],
        vec!["Teddy".to_string(), "Kermit".to_string()],
        DDNSConfig { host: "h".into(), username: "n".into(), password: "w".into() },
    );
    assert_eq!(
        config,
        Config {
            album_art_pattern: Some("Folder.(jpg|png)".into()),
            reindex_every_n_seconds: Some(1800),
            mount_dirs: Some(vec![mount("/music", "root")]),
            users: Some(vec![user("Teddy", ""), user("Kermit", "")]),
            ydns: Some(DDNSConfig {
                host: "h".into(),
                username: "n".into(),
                password: "w".into()
            }),
        }
    );
}

#[test]
fn read_of_an_empty_store_has_every_field() {
    let config = _get_test_db().read();
    assert_eq!(
        config,
        Config {
            album_art_pattern: Some("Folder.(jpg|png)".into()),
            reindex_every_n_seconds: Some(1800),
            mount_dirs: Some(vec![]),
            users: Some(vec![]),
            ydns: Some(DDNSConfig { host: "".into(), username: "".into(), password: "".into() }),
        }
    );
}

#[test]
fn store_executes_each_command() {
    let mut store = _get_test_db();
    store.execute(&StoreCommand::InsertMountPoints(vec![mount("/a", "a")]));
    store.execute(&StoreCommand::InsertMountPoints(vec![mount("/b", "b"), mount("/c", "c")]));
    assert_eq!(store.mount_points, vec![mount("/a", "a"), mount("/b", "b"), mount("/c", "c")]);
    store.execute(&StoreCommand::InsertUser(user("x", "pw")));
    store.execute(&StoreCommand::InsertUser(user("y", "")));
    assert_eq!(store.user_names, vec!["x".to_string(), "y".to_string()]);
    store.execute(&StoreCommand::DeleteMountPoints);
    assert_eq!(store.mount_points, vec![]);
    assert_eq!(store.user_names.len(), 2);
    store.execute(&StoreCommand::DeleteUsers);
    assert_eq!(store.user_names.len(), 0);
    store.execute(&StoreCommand::SetSleepDuration(-1));
    assert_eq!(store.misc.index_sleep_duration_seconds, -1);
    store.execute(&StoreCommand::SetAlbumArtPattern("z".into()));
    assert_eq!(store.misc.index_album_art_pattern, "z");
    store.execute(&StoreCommand::UpdateDdns(DDNSConfig {
        host: "h".into(),
        username: "n".into(),
        password: "w".into(),
    }));
    assert_eq!(
        store.ddns,
        DDNSConfig { host: "h".into(), username: "n".into(), password: "w".into() }
    );
    assert_eq!(store.misc.auth_secret, "secret");
}

fn refuse_users(command: &StoreCommand) -> Option<String> {
    if matches!(command, StoreCommand::InsertUser(_)) {
        Some("UNIQUE constraint failed".to_string())
    } else {
        None
    }
}

fn refuse_nothing(_command: &StoreCommand) -> Option<String> {
    None
}

fn carry_out(
    store: &mut Store,
    commands: &Vec<StoreCommand>,
    refusal: fn(&StoreCommand) -> Option<String>,
) -> (Result<(), ConfigError>, usize) {
    let mut tried = 0;
    let mut done = 0;
    let mut answer = Ok(());
    loop {
        match next_step(commands.len(), done, answer) {
            Step::Run(place) => {
                tried += 1;
                answer = match refusal(&commands[place]) {
                    Some(message) => Err(message),
                    None => {
                        store.execute(&commands[place]);
                        Ok(())
                    }
                };
                done = place + 1;
            }
            Step::Done(outcome) => return (outcome, tried),
        }
    }
}

#[test]
fn next_step_runs_the_commands_in_order() {
    assert_eq!(next_step(3, 0, Ok(())), Step::Run(0));
    assert_eq!(next_step(3, 1, Ok(())), Step::Run(1));
    assert_eq!(next_step(3, 2, Ok(())), Step::Run(2));
    assert_eq!(next_step(3, 3, Ok(())), Step::Done(Ok(())));
}

#[test]
fn next_step_stops_at_a_refusal() {
    assert_eq!(
        next_step(3, 1, Err("locked".to_string())),
        Step::Done(Err(ConfigError::StoreError("locked".to_string())))
    );
    assert_eq!(
        next_step(3, 3, Err("locked".to_string())),
        Step::Done(Err(ConfigError::StoreError("locked".to_string())))
    );
}

#[test]
fn next_step_of_no_command_is_done() {
    assert_eq!(next_step(0, 0, Ok(())), Step::Done(Ok(())));
    assert_eq!(next_step(2, 5, Ok(())), Step::Done(Ok(())));
}

#[test]
fn carrying_out_runs_every_command_where_none_is_refused() {
    let mut store = _get_test_db();
    let commands = ammend(&full_document());
    let (outcome, tried) = carry_out(&mut store, &commands, refuse_nothing);
    assert_eq!(outcome, Ok(()));
    assert_eq!(tried, commands.len());
    assert_eq!(store.read(), full_document());
}

#[test]
fn carrying_out_stops_at_the_first_refusal() {
    let mut store = _get_test_db();
    let (outcome, tried) = carry_out(&mut store, &ammend(&full_document()), refuse_users);
    assert_eq!(outcome, Err(ConfigError::StoreError("UNIQUE constraint failed".to_string())));
    assert_eq!(tried, 4);
    assert_eq!(store.mount_points, vec![mount("C:\\Music", "root")]);
    assert_eq!(store.user_names, Vec::<String>::new());
    assert_eq!(store.misc.index_sleep_duration_seconds, 1800);
    assert_eq!(store.misc.index_album_art_pattern, "Folder.(jpg|png)");
    assert_eq!(store.ddns.host, "");
}

#[test]
fn a_refused_overwrite_does_not_put_the_lists_back() {
    let mut store = _get_test_db();
    store.run(&ammend(&full_document()));
    let mut second = full_document();
    second.users = Some(vec![user("Gonzo", "x")]);
    second.reindex_every_n_seconds = Some(9);
    let (outcome, tried) = carry_out(&mut store, &overwrite(&second), refuse_users);
    assert_eq!(outcome, Err(ConfigError::StoreError("UNIQUE constraint failed".to_string())));
    assert_eq!(tried, 6);
    assert_eq!(store.mount_points, vec![mount("C:\\Music", "root")]);
    assert_eq!(store.user_names, Vec::<String>::new());
    assert_eq!(store.misc.index_sleep_duration_seconds, 123);
}

#[test]
fn carrying_out_no_command_succeeds() {
    let mut store = _get_test_db();
    let (outcome, tried) = carry_out(&mut store, &Vec::new(), refuse_users);
    assert_eq!(outcome, Ok(()));
    assert_eq!(tried, 0);
}
