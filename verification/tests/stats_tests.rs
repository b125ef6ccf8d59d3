use robot_pipeline::generation::{first_image, first_part_text, image_prompt, stats_of_text, ResponseError};
use robot_pipeline::json::{parse_json, Json, Member};
use robot_pipeline::stats::{fallback_stats, find_i32, find_string, key_is_listed, recover_stats, RobotStatus};

fn keys(list: &[&str]) -> Vec<String> {
    list.iter().map(|k| k.to_string()).collect()
}

fn member(key: &str, value: Json) -> Member {
    Member { key: key.to_string(), value }
}

#[test]
fn fields_under_a_wrapper_object_are_recovered() {
    let text = "{\"robot\": {\"name\": \"Ramen Rex\", \"lore\": \"Forged in broth.\", \"hp\": 1200, \"atk\": 77, \"def\": 31}}";
    let stats = recover_stats(text).unwrap();
    assert_eq!(stats.name, "Ramen Rex");
    assert_eq!(stats.lore, "Forged in broth.");
    assert_eq!(stats.hp, 1200);
    assert_eq!(stats.atk, 77);
    assert_eq!(stats.def, 31);
    assert_eq!(stats.visual_description, "A standard mechanical combat robot.");
}

#[test]
fn a_missing_field_gets_its_default() {
    let text = "{\"data\": {\"name\": \"Sushi Sentinel\", \"hp\": 900, \"atk\": 12, \"def\": 8, \"visual_description\": \"full body standing\"}}";
    let stats = recover_stats(text).unwrap();
    assert_eq!(
        stats,
        RobotStatus {
            name: "Sushi Sentinel".to_string(),
            lore: "No lore available.".to_string(),
            hp: 900,
            atk: 12,
            def: 8,
            visual_description: "full body standing".to_string(),
        }
    );
}

#[test]
fn an_empty_document_gives_all_defaults() {
    let expected = RobotStatus {
        name: "Unknown Robot".to_string(),
        lore: "No lore available.".to_string(),
        hp: 1000,
        atk: 50,
        def: 20,
        visual_description: "A standard mechanical combat robot.".to_string(),
    };
    assert_eq!(recover_stats("{}"), Ok(expected.clone()));
    assert_eq!(recover_stats("[1, 2, 3]"), Ok(expected.clone()));
    assert_eq!(recover_stats("\"just text\""), Ok(expected.clone()));
    assert_eq!(fallback_stats(&Json::Null), expected);
}

#[test]
fn keys_match_without_regard_to_case() {
    let text = "{\"Result\": {\"NAME\": \"Taco Titan\", \"Lore\": \"Crunch.\", \"HP\": 1500, \"Atk\": 60, \"DEF\": 25, \"Visual_Description_EN\": \"extreme full body shot\"}}";
    let stats = recover_stats(text).unwrap();
    assert_eq!(
        stats,
        RobotStatus {
            name: "Taco Titan".to_string(),
            lore: "Crunch.".to_string(),
            hp: 1500,
            atk: 60,
            def: 25,
            visual_description: "extreme full body shot".to_string(),
        }
    );
}

#[test]
fn text_that_is_not_json_is_refused() {
    assert!(recover_stats("name: Ramen Rex").is_err());
    assert!(recover_stats("").is_err());
    assert!(recover_stats("{\"name\": ").is_err());
    assert!(parse_json("{]").is_err());
}

#[test]
fn a_value_of_the_wrong_type_is_passed_over() {
    let text = "{\"a\": {\"name\": 5, \"hp\": \"many\"}, \"b\": {\"name\": \"Second\", \"hp\": 640}}";
    let stats = recover_stats(text).unwrap();
    assert_eq!(stats.name, "Second");
    assert_eq!(stats.hp, 640);
}

#[test]
fn a_number_that_is_no_integer_is_passed_over() {
    let text = "{\"hp\": 12.5, \"inner\": {\"hp\": 700}}";
    assert_eq!(recover_stats(text).unwrap().hp, 700);
}

#[test]
fn search_goes_into_a_member_before_the_next_member() {
    let doc = Json::Object(vec![
        member("first", Json::Object(vec![member("deep", Json::Object(vec![member("name", Json::Text("inner".to_string()))]))])),
        member("name", Json::Text("outer".to_string())),
    ]);
    assert_eq!(find_string(&doc, &keys(&["name"])), Some("inner".to_string()));
    let doc = Json::Object(vec![
        member("name", Json::Text("outer".to_string())),
        member("first", Json::Object(vec![member("name", Json::Text("inner".to_string()))])),
    ]);
    assert_eq!(find_string(&doc, &keys(&["name"])), Some("outer".to_string()));
}

#[test]
fn a_wanted_key_with_an_object_value_is_searched_inside() {
    let doc = Json::Object(vec![member(
        "name",
        Json::Object(vec![member("name", Json::Text("nested".to_string()))]),
    )]);
    assert_eq!(find_string(&doc, &keys(&["name"])), Some("nested".to_string()));
}

#[test]
fn arrays_are_not_searched() {
    let text = "{\"items\": [{\"name\": \"hidden\", \"hp\": 1}]}";
    let doc = parse_json(text).unwrap();
    assert_eq!(find_string(&doc, &keys(&["name"])), None);
    assert_eq!(find_i32(&doc, &keys(&["hp"])), None);
    assert_eq!(recover_stats(text).unwrap().name, "Unknown Robot");
}

#[test]
fn integers_are_cut_to_32_bits() {
    let doc = Json::Object(vec![member("hp", Json::Number(Some(4294967296 + 7)))]);
    assert_eq!(find_i32(&doc, &keys(&["hp"])), Some(7));
    let doc = Json::Object(vec![member("hp", Json::Number(Some(-3)))]);
    assert_eq!(find_i32(&doc, &keys(&["hp"])), Some(-3));
    let doc = Json::Object(vec![member("hp", Json::Number(None))]);
    assert_eq!(find_i32(&doc, &keys(&["hp"])), None);
}

#[test]
fn several_keys_are_accepted() {
    let doc = Json::Object(vec![member("visual_description_en", Json::Text("en".to_string()))]);
    assert_eq!(
        find_string(&doc, &keys(&["visual_description", "visual_description_en"])),
        Some("en".to_string())
    );
    assert_eq!(find_string(&doc, &keys(&[])), None);
}

#[test]
fn a_document_is_read_as_a_tree() {
    let doc = parse_json("{\"b\": [true, null, 2], \"a\": \"x\", \"c\": {\"n\": -4, \"f\": 1.5}}").unwrap();
    let expected = Json::Object(vec![
        member("a", Json::Text("x".to_string())),
        member("b", Json::Array(vec![Json::Bool(true), Json::Null, Json::Number(Some(2))])),
        member(
            "c",
            Json::Object(vec![member("f", Json::Number(None)), member("n", Json::Number(Some(-4)))]),
        ),
    ]);
    assert_eq!(doc, expected);
}

#[test]
fn statistics_read_directly_are_kept() {
    let direct = RobotStatus {
        name: "Direct".to_string(),
        lore: "l".to_string(),
        hp: 501,
        atk: 11,
        def: 6,
        visual_description: "v".to_string(),
    };
    assert_eq!(stats_of_text(Some(direct.clone()), "not even json"), Ok(direct));
    assert_eq!(stats_of_text(None, "{\"x\": {\"name\": \"Found\"}}").unwrap().name, "Found");
    assert!(stats_of_text(None, "not even json").is_err());
}

#[test]
fn the_first_part_of_the_first_candidate_is_read() {
    assert_eq!(first_part_text(&vec![]), Err(ResponseError::NoCandidates));
    assert_eq!(first_part_text(&vec![vec![]]), Err(ResponseError::NoParts));
    assert_eq!(
        first_part_text(&vec![vec!["one".to_string(), "two".to_string()], vec!["three".to_string()]]),
        Ok("one".to_string())
    );
    assert_eq!(first_image(&vec![]), Err(ResponseError::NoImage));
    assert_eq!(first_image(&vec![vec![]]), Err(ResponseError::NoImage));
    assert_eq!(first_image(&vec![vec![None, Some("late".to_string())]]), Err(ResponseError::NoImage));
    assert_eq!(first_image(&vec![vec![Some("QUJD".to_string())]]), Ok("QUJD".to_string()));
}

#[test]
fn the_image_prompt_ends_in_the_instructions() {
    let prompt = image_prompt("a ramen mech");
    assert!(prompt.starts_with("a ramen mech, highly zoomed out, full A-pose"));
    assert!(prompt.ends_with("mechanical combat robot design, clear silhouette."));
    assert!(prompt.contains("single white background `#FFFFFF`"));
}

#[test]
fn a_lower_case_key_is_looked_up_among_the_keys() {
    let wanted = keys(&["visual_description", "visual_description_en"]);
    assert!(key_is_listed(&"visual_description_en".to_string(), &wanted));
    assert!(key_is_listed(&"visual_description".to_string(), &wanted));
    assert!(!key_is_listed(&"Visual_Description".to_string(), &wanted));
    assert!(!key_is_listed(&"name".to_string(), &wanted));
    assert!(!key_is_listed(&"name".to_string(), &keys(&[])));
}

#[test]
fn fields_under_wrappers_of_any_depth_are_recovered() {
    let text = "{\"a\": {\"b\": {\"c\": {\"name\": \"Deep\", \"hp\": 1999}}, \"lore\": \"Mid\"}, \"z\": {\"y\": {\"atk\": 10, \"x\": {\"def\": 5, \"w\": {\"visual_description\": \"far down\"}}}}}";
    let stats = recover_stats(text).unwrap();
    assert_eq!(
        stats,
        RobotStatus {
            name: "Deep".to_string(),
            lore: "Mid".to_string(),
            hp: 1999,
            atk: 10,
            def: 5,
            visual_description: "far down".to_string(),
        }
    );
}
