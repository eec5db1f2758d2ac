use tmux_pilot::azdo::{
    area_paths, batch_ids, child_items_query, parse_type, wiql_body, work_item_from_raw,
    work_items_query, AreaNode, IdentityRef, RawWorkItem,
};
use tmux_pilot::config::{AzdoConfig, AzdoFilters, WorkItemType};
use tmux_pilot::html::strip_html;

fn filters(iteration: &str, states: &[&str], areas: &[&str]) -> AzdoConfig {
    AzdoConfig {
        organization: "org".to_string(),
        project: "proj".to_string(),
        team: None,
        filters: AzdoFilters {
            iteration: iteration.to_string(),
            states: states.iter().map(|s| s.to_string()).collect(),
            area_paths: areas.iter().map(|s| s.to_string()).collect(),
        },
    }
}

#[test]
fn strip_html_blocks_lists_and_entities() {
    let html = "<div><p>Hello&nbsp;<b>world</b></p><ul><li>one</li><li>two &amp; three</li></ul></div>";
    assert_eq!(strip_html(html), "Hello world\n- one\n- two & three");
}

#[test]
fn strip_html_collapses_blank_lines() {
    let out = strip_html("a<br><br><br><br>b");
    assert_eq!(out, "a\n\nb");
    assert!(!out.contains("\n\n\n"));
}

#[test]
fn strip_html_entities_and_trim() {
    assert_eq!(strip_html("  &lt;tag&gt; &quot;q&quot; &#39;s&#39;  "), "<tag> \"q\" 's'");
}

#[test]
fn strip_html_decodes_each_entity_once() {
    assert_eq!(strip_html("&amp;lt;"), "&lt;");
    assert_eq!(strip_html("&amp;amp;"), "&amp;");
    assert_eq!(strip_html("a &amp;nbsp;b &amp; c"), "a &nbsp;b & c");
    assert_eq!(strip_html("x&nbsp;y &amp;quot;"), "x y &quot;");
}

#[test]
fn parse_type_names() {
    assert_eq!(parse_type("Feature"), WorkItemType::Feature);
    assert_eq!(parse_type("User Story"), WorkItemType::UserStory);
    assert_eq!(parse_type("Bug"), WorkItemType::Bug);
    assert_eq!(parse_type("Task"), WorkItemType::Task);
    assert_eq!(parse_type("Epic"), WorkItemType::Free);
}

#[test]
fn type_name_round_trip() {
    for t in [WorkItemType::Feature, WorkItemType::UserStory, WorkItemType::Bug, WorkItemType::Task] {
        assert_eq!(parse_type(t.name()), t);
    }
}

#[test]
fn query_with_all_filters() {
    let cfg = filters("current", &["New", "Active"], &["Proj\\Team"]);
    assert_eq!(
        work_items_query(&cfg, "Feature"),
        "SELECT [System.Id] FROM WorkItems WHERE [System.WorkItemType] = 'Feature' AND [System.State] IN ('New', 'Active') AND [System.AreaPath] UNDER 'Proj\\Team' AND [System.IterationPath] = @CurrentIteration ORDER BY [System.CreatedDate] DESC"
    );
}

#[test]
fn query_with_iteration_path_and_no_states() {
    let cfg = filters("Sprint 5", &[], &[]);
    assert_eq!(
        work_items_query(&cfg, "Bug"),
        "SELECT [System.Id] FROM WorkItems WHERE [System.WorkItemType] = 'Bug' AND [System.IterationPath] UNDER 'Sprint 5' ORDER BY [System.CreatedDate] DESC"
    );
    let all = filters("", &[], &[]);
    assert_eq!(
        work_items_query(&all, "Task"),
        "SELECT [System.Id] FROM WorkItems WHERE [System.WorkItemType] = 'Task' ORDER BY [System.CreatedDate] DESC"
    );
}

#[test]
fn child_query_text() {
    assert_eq!(
        child_items_query(42),
        "SELECT [System.Id] FROM WorkItems WHERE [System.Parent] = 42 AND [System.State] <> 'Closed' AND [System.State] <> 'Removed' ORDER BY [System.WorkItemType], [System.Title]"
    );
}

#[test]
fn wiql_body_escapes_quotes() {
    assert_eq!(wiql_body("a \"b\" c"), "{\"query\":\"a \\\"b\\\" c\"}");
    assert_eq!(wiql_body("x\ny"), "{\"query\":\"x\\ny\"}");
}

#[test]
fn wiql_body_escapes_as_serde_json_does() {
    let texts = ["tab\there", "back\\slash", "bell\u{7}\u{1f}\u{8}\u{c}\r", "é ü ✓ \u{7f}", ""];
    for t in texts {
        let expected = format!("{{\"query\":{}}}", serde_json::to_string(t).unwrap());
        assert_eq!(wiql_body(t), expected);
    }
    assert_eq!(wiql_body("\u{1}\u{1b}"), "{\"query\":\"\\u0001\\u001b\"}");
}

#[test]
fn batch_keeps_first_two_hundred() {
    let ids: Vec<u64> = (1..=250).collect();
    let b = batch_ids(&ids);
    assert_eq!(b.len(), 200);
    assert_eq!(b[0], 1);
    assert_eq!(b[199], 200);
    let few = vec![7, 8];
    assert_eq!(batch_ids(&few), vec![7, 8]);
}

#[test]
fn raw_work_item_conversion() {
    let raw = RawWorkItem {
        id: 9,
        title: "T".to_string(),
        work_item_type: "User Story".to_string(),
        state: "New".to_string(),
        assigned_to: Some(IdentityRef { display_name: Some("Ann".to_string()) }),
        description: Some("<p>desc</p>".to_string()),
        acceptance_criteria: None,
        parent: Some(3),
    };
    let wi = work_item_from_raw(&raw);
    assert_eq!(wi.id, Some(9));
    assert_eq!(wi.work_item_type, WorkItemType::UserStory);
    assert_eq!(wi.assigned_to.as_deref(), Some("Ann"));
    assert_eq!(wi.description.as_deref(), Some("desc"));
    assert_eq!(wi.acceptance_criteria, None);
    assert_eq!(wi.parent_id, Some(3));
}

#[test]
fn area_paths_are_joined_and_sorted() {
    let root = AreaNode {
        name: "Proj".to_string(),
        children: Some(vec![
            AreaNode { name: "Web".to_string(), children: None },
            AreaNode {
                name: "Api".to_string(),
                children: Some(vec![AreaNode { name: "Auth".to_string(), children: None }]),
            },
        ]),
    };
    assert_eq!(
        area_paths(&root),
        vec!["Proj", "Proj\\Api", "Proj\\Api\\Auth", "Proj\\Web"]
    );
}
