use azure_sdk::errors::TraversalError;
use azure_sdk::parsing_xml::{
    cast_must, cast_optional, find_subnodes, inner_text, traverse, traverse_single_must,
    traverse_single_optional,
};
use azure_sdk::xml_tree::{Element, Xml};

const XML: &str = "<?xml version=\"1.0\" encoding=\"UTF-8\"?>
<EnumerationResults \
                               ServiceEndpoint=\"http://mindrust.blob.core.windows.net/\">
  \
                               <Containers>
    <Container>
      <Name>pippo</Name>
      \
                               <Properties>
        <Last-Modified>Mon, 23Nov 2015 21:12:35 \
                               GMT</Last-Modified>
        <Etag>\"0x8D2F44ACF757699\"</Etag>
        \
                               <LeaseStatus>unlocked</LeaseStatus>
        \
                               <LeaseState>available</LeaseState>
                               \
                               <SomeNumber>256</SomeNumber>
      </Properties>
    </Container>
    \
                               <Container>
      <Name>pluto</Name>
      <Properties>
        \
                               <Last-Modified>Mon, 23Nov 2015 21:12:35 GMT</Last-Modified>
        \
                               <Etag>\"0xAA2F44ACF757699\"</Etag>
        \
                               <LeaseStatus>locked</LeaseStatus>
        \
                               <LeaseState>available</LeaseState>
      </Properties>
    \
                               </Container>
  </Containers>
  <NextMarker />
</EnumerationResults>";

fn from_parsed(e: &xml::Element) -> Element {
    let mut out = Element::new(e.name.clone());
    for child in &e.children {
        let c = match child {
            xml::Xml::ElementNode(x) => Xml::ElementNode(from_parsed(x)),
            xml::Xml::CharacterNode(t) => Xml::CharacterNode(t.clone()),
            xml::Xml::CDATANode(t) => Xml::CDATANode(t.clone()),
            xml::Xml::CommentNode(t) => Xml::CommentNode(t.clone()),
            xml::Xml::PINode(t) => Xml::PINode(t.clone()),
        };
        out.push_child(c);
    }
    out
}

fn parse(text: &str) -> Element {
    let parsed: xml::Element = text.parse().unwrap();
    from_parsed(&parsed)
}

fn leaf(name: &str, text: &str) -> Xml {
    let mut e = Element::new(name.to_string());
    e.push_child(Xml::CharacterNode(text.to_string()));
    Xml::ElementNode(e)
}

#[test]
fn test_cast_optional_1() {
    let elem = parse(XML);

    let sub1 = traverse(&elem, &["Containers", "Container"], false).unwrap();

    {
        let num = cast_optional::<u64>(sub1[0], &["Properties", "SomeNumber"]).unwrap();
        assert_eq!(Some(256u64), num);
    }

    {
        let num2 = cast_optional::<u64>(sub1[1], &["Properties", "SomeNumber"]).unwrap();
        assert_eq!(None, num2);
    }
}

#[test]
fn test_first_1() {
    let elem = parse(XML);

    let sub1 = find_subnodes(&elem, "Containers");
    assert_eq!(1, sub1.len());

    let sub2 = find_subnodes(sub1[0], "Container");
    assert_eq!(2, sub2.len());
}

#[test]
fn test_inner_2() {
    let elem = parse(XML);

    let mut sub = find_subnodes(&elem, "Containers");
    sub = find_subnodes(sub[0], "Container");
    sub = find_subnodes(sub[0], "Properties");
    sub = find_subnodes(sub[0], "LeaseStatus");

    if let Ok(inner) = inner_text(sub[0]) {
        assert_eq!(inner, "unlocked");
    } else {
        panic!("should have found CharacterNode");
    }
}

#[test]
fn test_traverse_1() {
    let elem = parse(XML);

    let mut res = traverse(&elem, &["Containers", "Container"], false).unwrap();
    res = traverse(res[0], &["Properties", "LeaseStatus"], false).unwrap();

    if let Ok(inner) = inner_text(res[0]) {
        assert_eq!(inner, "unlocked");
    } else {
        panic!("should have found CharacterNode");
    }
}

#[test]
fn test_traverse_2() {
    let elem = parse(XML);

    let mut res = traverse(&elem, &["Containers", "Container"], false).unwrap();
    res = traverse(res[1], &["Properties", "LeaseStatus"], false).unwrap();

    if let Ok(inner) = inner_text(res[0]) {
        assert_eq!(inner, "locked");
    } else {
        panic!("should have found CharacterNode");
    }
}

#[test]
fn test_traverse_single_must_1() {
    let elem = parse(XML);

    let res = traverse(&elem, &["Containers", "Container"], false).unwrap();
    let res_final = traverse_single_must(res[1], &["Properties", "LeaseStatus"]).unwrap();

    if let Ok(inner) = inner_text(res_final) {
        assert_eq!(inner, "locked");
    } else {
        panic!("should have found CharacterNode");
    }
}

#[test]
fn test_traverse_single_optional_1() {
    let elem = parse(XML);

    let res = traverse(&elem, &["Containers", "Container"], false).unwrap();
    let res_final = traverse_single_optional(res[1], &["Properties", "Pinocchio"]).unwrap();

    assert_eq!(res_final, None);
}

#[test]
fn empty_path_reaches_the_node_itself() {
    let elem = parse(XML);
    for flag in [false, true] {
        let res = traverse(&elem, &[], flag).unwrap();
        assert_eq!(res.len(), 1);
        assert!(std::ptr::eq(res[0], &elem));
    }
    let one = traverse_single_must(&elem, &[]).unwrap();
    assert_eq!(one.name, "EnumerationResults");
}

#[test]
fn ambiguous_inner_segment_is_multiple_node() {
    let elem = parse(XML);
    let res = traverse(&elem, &["Containers", "Container", "Name"], false);
    assert_eq!(res, Err(TraversalError::MultipleNode("Container".to_string())));
    let res = traverse(&elem, &["Containers", "Container", "Nothing"], true);
    assert_eq!(res, Err(TraversalError::MultipleNode("Container".to_string())));
}

#[test]
fn missing_segments() {
    let elem = parse(XML);
    let res = traverse(&elem, &["Containers", "Nothing"], false);
    assert_eq!(res, Err(TraversalError::PathNotFound("Nothing".to_string())));
    let res = traverse(&elem, &["Containers", "Nothing"], true).unwrap();
    assert!(res.is_empty());
    let res = traverse(&elem, &["Nothing", "Container"], true);
    assert_eq!(res, Err(TraversalError::PathNotFound("Nothing".to_string())));
}

#[test]
fn final_segment_keeps_every_match_in_order() {
    let elem = parse(XML);
    let res = traverse(&elem, &["Containers", "Container"], false).unwrap();
    assert_eq!(res.len(), 2);
    assert_eq!(cast_must::<String>(res[0], &["Name"]).unwrap(), "pippo");
    assert_eq!(cast_must::<String>(res[1], &["Name"]).unwrap(), "pluto");
    assert_eq!(cast_optional::<u64>(res[0], &["Properties", "SomeNumber"]), Ok(Some(256)));
    assert_eq!(cast_optional::<u64>(res[1], &["Properties", "SomeNumber"]), Ok(None));
}

#[test]
fn single_must_refuses_zero_or_many() {
    let elem = parse(XML);
    let many = traverse_single_must(&elem, &["Containers", "Container"]);
    assert_eq!(many, Err(TraversalError::MultipleNode("Container".to_string())));
    let none = traverse_single_must(&elem, &["Containers", "Pinocchio"]);
    assert_eq!(none, Err(TraversalError::PathNotFound("Pinocchio".to_string())));
}

#[test]
fn single_optional_on_two_siblings_is_multiple_node() {
    let elem = parse(XML);
    let res = traverse_single_optional(&elem, &["Containers", "Container"]);
    assert_eq!(res, Err(TraversalError::MultipleNode("Container".to_string())));
    let res = traverse_single_optional(&elem, &["Containers"]).unwrap();
    assert_eq!(res.map(|e| e.name.as_str()), Some("Containers"));
}

#[test]
fn cast_must_on_missing_leaf_is_path_not_found() {
    let elem = parse(XML);
    let res = traverse(&elem, &["Containers", "Container"], false).unwrap();
    let num = cast_must::<u64>(res[1], &["Properties", "SomeNumber"]);
    assert_eq!(num, Err(TraversalError::PathNotFound("SomeNumber".to_string())));
    let num = cast_must::<u64>(res[0], &["Properties", "SomeNumber"]);
    assert_eq!(num, Ok(256));
}

#[test]
fn cast_must_on_unreadable_text_fails() {
    let elem = parse(XML);
    let res = traverse(&elem, &["Containers", "Container"], false).unwrap();
    let num = cast_must::<u64>(res[0], &["Properties", "LeaseStatus"]);
    assert_eq!(num, Err(TraversalError::ConversionFailed("unlocked".to_string())));
}

#[test]
fn cast_optional_on_unreadable_text_is_none() {
    let elem = parse(XML);
    let res = traverse(&elem, &["Containers", "Container"], false).unwrap();
    let num = cast_optional::<u64>(res[0], &["Properties", "LeaseStatus"]);
    assert_eq!(num, Ok(None));
    let flag = cast_optional::<bool>(res[0], &["Properties", "LeaseState"]);
    assert_eq!(flag, Ok(None));
}

#[test]
fn inner_text_without_text_child_is_empty() {
    let elem = parse(XML);
    let marker = traverse_single_must(&elem, &["NextMarker"]).unwrap();
    assert_eq!(inner_text(marker), Ok(""));

    let mut e = Element::new("Outer".to_string());
    e.push_child(Xml::CommentNode("note".to_string()));
    e.push_child(leaf("Inner", "deep"));
    assert_eq!(inner_text(&e), Ok(""));
    assert_eq!(cast_must::<String>(&e, &[]), Ok(String::new()));
}

#[test]
fn inner_text_takes_the_first_text_child() {
    let mut e = Element::new("Mixed".to_string());
    e.push_child(Xml::CommentNode("skip".to_string()));
    e.push_child(leaf("Child", "nested"));
    e.push_child(Xml::CharacterNode(" first ".to_string()));
    e.push_child(Xml::CharacterNode("second".to_string()));
    assert_eq!(inner_text(&e), Ok(" first "));
}

#[test]
fn leaf_text_round_trip() {
    let elem = parse(XML);
    let res = traverse(&elem, &["Containers", "Container"], false).unwrap();
    let a = cast_must::<String>(res[0], &["Properties", "LeaseStatus"]).unwrap();
    let b = cast_must::<String>(res[1], &["Properties", "LeaseStatus"]).unwrap();
    assert_eq!(a, "unlocked");
    assert_eq!(b, "locked");
    let etag = cast_must::<String>(res[0], &["Properties", "Etag"]).unwrap();
    assert_eq!(etag, "\"0x8D2F44ACF757699\"");
}

#[test]
fn find_subnodes_skips_other_children() {
    let mut e = Element::new("Root".to_string());
    e.push_child(Xml::CharacterNode("A".to_string()));
    e.push_child(leaf("A", "1"));
    e.push_child(Xml::CommentNode("A".to_string()));
    e.push_child(leaf("B", "2"));
    e.push_child(leaf("A", "3"));
    let found = find_subnodes(&e, "A");
    assert_eq!(found.len(), 2);
    assert_eq!(inner_text(found[0]), Ok("1"));
    assert_eq!(inner_text(found[1]), Ok("3"));
    assert!(find_subnodes(&e, "C").is_empty());
}

#[test]
fn typed_reads() {
    let mut e = Element::new("Root".to_string());
    e.push_child(leaf("Plus", "+7"));
    e.push_child(leaf("Max", "18446744073709551615"));
    e.push_child(leaf("Over", "18446744073709551616"));
    e.push_child(leaf("Empty", ""));
    e.push_child(leaf("Yes", "true"));
    e.push_child(leaf("No", "false"));
    e.push_child(leaf("Other", "True"));
    assert_eq!(cast_must::<u64>(&e, &["Plus"]), Ok(7));
    assert_eq!(cast_must::<u64>(&e, &["Max"]), Ok(u64::MAX));
    assert_eq!(
        cast_must::<u64>(&e, &["Over"]),
        Err(TraversalError::ConversionFailed("18446744073709551616".to_string()))
    );
    assert_eq!(cast_must::<u64>(&e, &["Empty"]), Err(TraversalError::ConversionFailed(String::new())));
    assert_eq!(cast_optional::<u64>(&e, &["Empty"]), Ok(None));
    assert_eq!(cast_must::<bool>(&e, &["Yes"]), Ok(true));
    assert_eq!(cast_must::<bool>(&e, &["No"]), Ok(false));
    assert_eq!(
        cast_must::<bool>(&e, &["Other"]),
        Err(TraversalError::ConversionFailed("True".to_string()))
    );
    assert_eq!(cast_optional::<String>(&e, &["Other"]), Ok(Some("True".to_string())));
}
