use overlay_forge::gearblocks_api_scraper::{
    absolutize_docs_url, absolutize_fragment_url, clean_member_type, decode_entities,
    docs_kind_from_href, extract_desc_cell, extract_div_title, extract_table_cell_by_class,
    first_anchor_text, first_href, has_mutating_prefix, is_mutating_member, last_anchor_text,
    member_key, member_kind_from_section, member_signature, normalize_type_name,
    parse_enum_values_from_row, parse_hierarchy_type_candidates, parse_namespace_enums,
    parse_namespace_title, parse_namespace_type_candidates, parse_namespace_urls,
    parse_parameters, parse_source_version, parse_type_members, parse_type_page,
    parse_type_page_title, parse_type_summary, split_full_type_name, split_parameters,
    strip_html, TypeCandidate,
};

#[test]
fn parses_method_parameters_with_defaults() {
    let parameters = parse_parameters(
        "CreateAttachment(AttachmentTypeFlags type, IPart ownerPart, bool invokeAsPlayer=false)",
    );

    assert_eq!(parameters.len(), 3);
    assert_eq!(parameters[0].parameter_name, "type");
    assert_eq!(parameters[0].parameter_type, "AttachmentTypeFlags");
    assert_eq!(parameters[2].parameter_name, "invokeAsPlayer");
    assert_eq!(parameters[2].default_value, "false");
    assert!(parameters[2].is_optional);
}

#[test]
fn parses_type_page_title() {
    let html = r##"<div class="title">SmashHammer.GearBlocks.Construction.IPart Interface Reference</div>"##;
    let (namespace, api_type_name, kind) = parse_type_page_title(html).unwrap();

    assert_eq!(namespace, "SmashHammer.GearBlocks.Construction");
    assert_eq!(api_type_name, "IPart");
    assert_eq!(kind, "interface");
}

#[test]
fn parameter_lists_split_only_at_top_level_commas() {
    let parts = split_parameters(" Dictionary<string, int> map , Func<int,(int, int)> f,, ");
    assert_eq!(parts, vec!["Dictionary<string, int> map", "Func<int,(int, int)> f"]);
    let parameters = parse_parameters("Resize(Vector3 size, int[] steps = null)");
    assert_eq!(parameters.len(), 2);
    assert_eq!(parameters[1].position, 1);
    assert_eq!(parameters[1].parameter_type, "int[]");
    assert_eq!(parameters[1].default_value, "null");
    assert!(parse_parameters("Clear()").is_empty());
    assert!(parse_parameters("NoBrackets").is_empty());
}

#[test]
fn nameless_parameters_are_dropped_but_keep_positions() {
    let parameters = parse_parameters("F(= 3, int b)");
    assert_eq!(parameters.len(), 1);
    assert_eq!(parameters[0].position, 1);
    assert_eq!(parameters[0].parameter_name, "b");
    assert!(!parameters[0].is_optional);
}

#[test]
fn html_text_drops_tags_and_decodes_entities() {
    assert_eq!(strip_html("<b>Vector3</b>&#160;&lt;T&gt;  size"), "Vector3 <T> size");
    assert_eq!(strip_html("a<br>b"), "a b");
    assert_eq!(decode_entities("&amp;lt;"), "&lt;");
    assert_eq!(decode_entities("x&nbsp;&quot;y&quot;&#39;"), "x \"y\"'");
}

#[test]
fn type_names_are_normalised_and_split_at_the_last_dot() {
    assert_eq!(normalize_type_name("List &lt; IPart &gt;"), "List<IPart>");
    assert_eq!(normalize_type_name("  Smash.Hammer   Part "), "Smash.Hammer Part");
    let (namespace, name) = split_full_type_name("SmashHammer.GearBlocks.IPart");
    assert_eq!(namespace, "SmashHammer.GearBlocks");
    assert_eq!(name, "IPart");
    let (namespace, name) = split_full_type_name("Plain");
    assert_eq!(namespace, "");
    assert_eq!(name, "Plain");
    assert_eq!(clean_member_type("static\u{a0}float static"), "static float");
}

#[test]
fn titles_summaries_and_versions_are_read_from_pages() {
    let html = r##"<div class="title">SmashHammer.Core Namespace Reference</div><div class="textblock"><p>Core types.</p></div><small>Generated by <a href="x">doxygen</a> 1.9.8</small>"##;
    assert_eq!(parse_namespace_title(html).as_deref(), Some("SmashHammer.Core"));
    assert_eq!(parse_type_summary(html).as_deref(), Some("Core types."));
    assert_eq!(parse_source_version(html).as_deref(), Some("doxygen 1.9.8"));
    assert_eq!(extract_div_title("<div class=\"title\"> </div>"), None);
    assert_eq!(parse_type_page_title("<div class=\"title\">X Namespace Reference</div>"), None);
    assert_eq!(parse_source_version("no footer"), None);
}

#[test]
fn member_sections_signatures_and_keys() {
    assert_eq!(member_kind_from_section("public member functions"), "method");
    assert_eq!(member_kind_from_section("properties"), "property");
    assert_eq!(member_kind_from_section("data fields"), "field");
    assert_eq!(member_kind_from_section("events"), "");
    assert_eq!(member_signature("method", "Spawn", "Spawn (int count )"), "Spawn(int count)");
    assert_eq!(member_signature("method", "Spawn", "Spawn"), "Spawn()");
    assert_eq!(member_signature("property", "Mass", "Mass [get]"), "Mass");
    assert_eq!(member_key("Spawn", "Spawn(int count)"), "Spawn(int count)");
    assert_eq!(member_key("Mass", "Mass"), "Mass");
}

#[test]
fn mutating_members_are_recognised_by_prefix() {
    assert!(is_mutating_member("IPart", "SetColour"));
    assert!(is_mutating_member("IPart", "DESTROY"));
    assert!(!is_mutating_member("IPart", "GetColour"));
    assert!(has_mutating_prefix("toggle"));
    assert!(!has_mutating_prefix("Toggle"));
}

#[test]
fn links_anchors_and_cells() {
    let row = r##"<td class="memItemLeft">int&#160;</td><td class="memItemRight"><a href="class_a.html#x">A</a> and <a href="#y">B</a></td><td class="desc">Some <b>text</b></td>"##;
    assert_eq!(first_href(row).as_deref(), Some("class_a.html#x"));
    assert_eq!(first_anchor_text(row).as_deref(), Some("A"));
    assert_eq!(last_anchor_text(row).as_deref(), Some("B"));
    assert_eq!(extract_table_cell_by_class(row, "memItemLeft").as_deref(), Some("int&#160;"));
    assert_eq!(extract_desc_cell(row).as_deref(), Some("Some text"));
    assert_eq!(docs_kind_from_href("interface_i_part.html"), "interface");
    assert_eq!(docs_kind_from_href("namespace_x.html"), "");
    assert_eq!(
        absolutize_docs_url("././class_x.html"),
        "https://www.gearblocksgame.com/apidoc/class_x.html"
    );
    assert_eq!(absolutize_docs_url("https://example.com/a"), "https://example.com/a");
    assert_eq!(absolutize_fragment_url("https://d/p.html", "#m"), "https://d/p.html#m");
}

#[test]
fn enumeration_rows_list_their_values() {
    let values = parse_enum_values_from_row("enum Flags { None = 0, |Bolt| = 2, , Weld }");
    assert_eq!(values.len(), 3);
    assert_eq!(values[0].value_name, "None");
    assert_eq!(values[0].numeric_value, "0");
    assert_eq!(values[1].value_name, "Bolt");
    assert_eq!(values[1].position, 1);
    assert_eq!(values[2].value_name, "Weld");
    assert_eq!(values[2].position, 3);
    assert_eq!(values[2].numeric_value, "");
    assert!(parse_enum_values_from_row("no braces").is_empty());
}

#[test]
fn type_members_follow_their_section_headings() {
    let html = [
        r##"<tr class="heading"><td><h2 class="groupheader">Public Member Functions</h2></td></tr>"##,
        r##"<tr class="memitem"><td class="memItemLeft">void&#160;</td><td class="memItemRight"><a href="#a1">SetMass</a> (float mass)</td></tr>"##,
        r##"<tr class="memdesc"><td>Sets the mass.</td></tr>"##,
        r##"<tr class="heading"><td><h2 class="groupheader">Properties</h2></td></tr>"##,
        r##"<tr class="memitem"><td class="memItemLeft">float&#160;</td><td class="memItemRight"><a href="#a2">Mass</a> [get]</td></tr>"##,
    ]
    .concat();
    let members = parse_type_members(&html, "https://d/class_part.html", "Part");
    assert_eq!(members.len(), 2);
    assert_eq!(members[0].member_kind, "method");
    assert_eq!(members[0].signature, "SetMass(float mass)");
    assert_eq!(members[0].docs_url, "https://d/class_part.html#a1");
    assert_eq!(members[0].notes, "class=\"memdesc\" Sets the mass.");
    assert!(members[0].is_mutating && members[0].is_invokable);
    assert_eq!(members[0].parameters.len(), 1);
    assert_eq!(members[1].member_kind, "property");
    assert!(members[1].is_readable);
    assert!(!members[1].is_writable);
    assert_eq!(members[1].return_type, "float");
}

#[test]
fn index_pages_yield_candidates_once_each() {
    let hierarchy = [
        r##"<tr><td><a href="class_smash_1_1_part.html">Smash.Part</a></td><td class="desc">A part</td></tr>"##,
        r##"<tr><td><a href="class_smash_1_1_part.html">Smash.Part</a></td></tr>"##,
        r##"<tr><td><a href="class_plain.html">Plain</a></td></tr>"##,
    ]
    .concat();
    let candidates = parse_hierarchy_type_candidates(&hierarchy);
    assert_eq!(candidates.len(), 1);
    assert_eq!(candidates[0].namespace, "Smash");
    assert_eq!(candidates[0].api_type_name, "Part");
    assert_eq!(candidates[0].notes, "A part");
    let namespace_page = [
        r##"<div class="title">Smash Namespace Reference</div>"##,
        r##"<tr><td><a href="struct_smash_1_1_pose.html">Pose</a></td></tr>"##,
        r##"<tr><td><h2 class="groupheader">Enumerations</h2></td></tr>"##,
        r##"<tr class="memitem"><td class="memItemRight">enum <a href="namespace_smash.html#e1">Mode</a> { A, B = 4 }</td></tr>"##,
    ]
    .concat();
    let types = parse_namespace_type_candidates(&namespace_page, "https://d/namespace_smash.html");
    assert_eq!(types.len(), 1);
    assert_eq!(types[0].type_kind, "struct");
    let enums = parse_namespace_enums(&namespace_page, "https://d/namespace_smash.html");
    assert_eq!(enums.len(), 1);
    assert_eq!(enums[0].api_type_name, "Mode");
    assert_eq!(enums[0].enum_values.len(), 2);
    assert_eq!(enums[0].enum_values[1].numeric_value, "4");
}

#[test]
fn namespace_index_links_are_sorted_and_unique() {
    let html = r##"<a href="namespace_b.html">B</a><a href="namespace_a.html">A</a><a href="namespace_b.html">B</a><a href="class_x.html">X</a>"##;
    assert_eq!(
        parse_namespace_urls(html),
        vec![
            "https://www.gearblocksgame.com/apidoc/namespace_a.html".to_string(),
            "https://www.gearblocksgame.com/apidoc/namespace_b.html".to_string(),
        ]
    );
}

#[test]
fn type_pages_keep_the_candidate_when_the_title_is_missing() {
    let candidate = TypeCandidate {
        namespace: "Smash".to_string(),
        api_type_name: "Part".to_string(),
        type_kind: "class".to_string(),
        docs_url: "https://d/class_part.html".to_string(),
        notes: "From the index".to_string(),
    };
    let page = parse_type_page(candidate, "<p>nothing here</p>");
    assert_eq!(page.namespace, "Smash");
    assert_eq!(page.api_type_name, "Part");
    assert_eq!(page.notes, "From the index");
    assert!(page.members.is_empty());
}
