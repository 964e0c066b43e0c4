use sage_auth::wire::{Json, Member};

#[test]
fn members_are_made_as_they_are_named() {
    assert_eq!(
        Member::text("accessToken", "abc"),
        Member {
            name: "accessToken".to_string(),
            value: Json::Text("abc".to_string()),
        }
    );
    assert_eq!(
        Member::flag("requestUser", true),
        Member {
            name: "requestUser".to_string(),
            value: Json::Flag(true),
        }
    );
    assert_eq!(
        Member::number("version", i32::MIN),
        Member {
            name: "version".to_string(),
            value: Json::Number(i32::MIN),
        }
    );
}

#[test]
fn an_object_keeps_its_members_in_order() {
    let inner = vec![Member::text("name", "Minecraft"), Member::number("version", 1)];
    let outer = Json::object(vec![
        Member::flag("b", false),
        Member::object("agent", inner),
        Member::text("a", ""),
    ]);
    assert_eq!(
        outer,
        Json::Object(vec![
            Member {
                name: "b".to_string(),
                value: Json::Flag(false),
            },
            Member {
                name: "agent".to_string(),
                value: Json::Object(vec![
                    Member {
                        name: "name".to_string(),
                        value: Json::Text("Minecraft".to_string()),
                    },
                    Member {
                        name: "version".to_string(),
                        value: Json::Number(1),
                    },
                ]),
            },
            Member {
                name: "a".to_string(),
                value: Json::Text(String::new()),
            },
        ])
    );
}

#[test]
fn an_empty_object_has_no_members() {
    assert_eq!(Json::object(Vec::new()), Json::Object(Vec::new()));
}
