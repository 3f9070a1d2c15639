use kdl_builder::{KdlChildrenProxy, KdlNode, KdlNodeBuilder, KdlValue, KdlValuesProxy};
use std::collections::HashMap;

fn t(s: &str) -> String {
    s.to_string()
}

fn builder(name: &str) -> KdlNodeBuilder {
    KdlNodeBuilder::new(&mut t(name))
}

fn bare(name: &str) -> KdlNode {
    KdlNode { name: t(name), values: vec![], properties: HashMap::new(), children: vec![] }
}

fn ints(of: &[i64]) -> Vec<KdlValue> {
    of.iter().map(|n| KdlValue::Int(*n)).collect()
}

#[test]
fn new_node_is_bare() {
    assert_eq!(builder("n").build(), bare("n"));
    assert_eq!(builder("").build(), bare(""));
}

#[test]
fn name_renames_in_place() {
    let node = builder("before").integer(1).name(&mut t("after")).build();
    assert_eq!(node.name, "after");
    assert_eq!(node.values, ints(&[1]));
    assert_eq!(builder("x").name(&mut t("")).build().name, "");
}

#[test]
fn node_value_appenders() {
    let node = builder("n")
        .add(KdlValue::Int(1))
        .val(KdlValue::Int(2))
        .str(&mut t("three"))
        .s(&mut t("four"))
        .integer(5)
        .i(6)
        .bool(true)
        .b(false)
        .y()
        .n()
        .null()
        .nul()
        .nil()
        .build();
    assert_eq!(
        node.values,
        vec![
            KdlValue::Int(1),
            KdlValue::Int(2),
            KdlValue::String(t("three")),
            KdlValue::String(t("four")),
            KdlValue::Int(5),
            KdlValue::Int(6),
            KdlValue::Boolean(true),
            KdlValue::Boolean(false),
            KdlValue::Boolean(true),
            KdlValue::Boolean(false),
            KdlValue::Null,
            KdlValue::Null,
            KdlValue::Null,
        ]
    );
}

#[test]
fn node_rem_removes_by_index() {
    let node = builder("n").integer(1).integer(2).integer(3).rem(1).build();
    assert_eq!(node.values, ints(&[1, 3]));
}

#[test]
fn node_value_removes_then_appends_at_the_end() {
    let node = builder("n").integer(1).integer(2).integer(3).value(0, KdlValue::Int(9)).build();
    assert_eq!(node.values, ints(&[2, 3, 9]));
    let node = builder("n").integer(1).value(0, KdlValue::Int(9)).build();
    assert_eq!(node.values, ints(&[9]));
}

#[test]
fn node_join_and_vals_append_many() {
    let mut more = KdlValuesProxy(ints(&[2, 3]));
    let b = builder("n").integer(1).join(&mut more);
    assert!(more.0.is_empty());
    let mut again = KdlValuesProxy(ints(&[4]));
    let node = b.vals(&mut again).build();
    assert_eq!(node.values, ints(&[1, 2, 3, 4]));
}

#[test]
fn node_set_and_values_replace_wholesale() {
    let mut source = KdlValuesProxy(ints(&[7, 8]));
    let node = builder("n").integer(1).set(&mut source).build();
    assert_eq!(node.values, ints(&[7, 8]));
    assert_eq!(source.0, ints(&[7, 8]));
    let node = builder("n").integer(1).integer(2).values(&mut source).build();
    assert_eq!(node.values, ints(&[7, 8]));
}

#[test]
fn node_put_prop_and_property_overwrite() {
    let node = builder("n")
        .put(&mut t("a"), KdlValue::Int(1))
        .prop(&mut t("a"), KdlValue::Int(2))
        .property(&mut t("a"), KdlValue::String(t("three")))
        .property(&mut t("b"), KdlValue::Null)
        .build();
    assert_eq!(node.properties.len(), 2);
    assert_eq!(node.properties.get("a"), Some(&KdlValue::String(t("three"))));
    assert_eq!(node.properties.get("b"), Some(&KdlValue::Null));
}

#[test]
fn node_properties_merge_in_bulk() {
    let mut extra = HashMap::new();
    extra.insert(t("shared"), KdlValue::Boolean(true));
    extra.insert(t("new"), KdlValue::Int(5));
    let node = builder("n")
        .put(&mut t("shared"), KdlValue::Int(1))
        .put(&mut t("kept"), KdlValue::Int(2))
        .properties(&mut extra)
        .build();
    let mut expected = HashMap::new();
    expected.insert(t("shared"), KdlValue::Boolean(true));
    expected.insert(t("new"), KdlValue::Int(5));
    expected.insert(t("kept"), KdlValue::Int(2));
    assert_eq!(node.properties, expected);
    assert_eq!(extra.len(), 2);
    let same = builder("n")
        .put(&mut t("shared"), KdlValue::Int(1))
        .put(&mut t("kept"), KdlValue::Int(2))
        .props(&mut extra)
        .build();
    assert_eq!(same.properties, expected);
}

#[test]
fn node_children_keep_their_order() {
    let node = builder("root")
        .child(builder("a"))
        .children(vec![builder("b"), builder("c")])
        .insert_child(0, builder("first"))
        .insert_child(4, builder("last"))
        .insert_child(2, builder("mid"))
        .build();
    let names: Vec<&str> = node.children.iter().map(|c| c.name.as_str()).collect();
    assert_eq!(names, vec!["first", "a", "mid", "b", "c", "last"]);
}

#[test]
fn node_remove_child_shifts_the_rest() {
    let node = builder("root")
        .children(vec![builder("a"), builder("b"), builder("c")])
        .remove_child(1)
        .build();
    assert_eq!(node.children, vec![bare("a"), bare("c")]);
}

#[test]
fn node_set_children_and_remove_children() {
    let node = builder("root")
        .child(builder("old"))
        .set_children(vec![builder("x"), builder("y")])
        .build();
    assert_eq!(node.children, vec![bare("x"), bare("y")]);
    let node = builder("root").child(builder("old")).remove_children().build();
    assert_eq!(node, bare("root"));
    assert_eq!(builder("root").remove_children().build(), bare("root"));
}

#[test]
fn node_reset_leaves_name_and_children() {
    let node = builder("root")
        .integer(1)
        .put(&mut t("k"), KdlValue::Int(2))
        .child(builder("kid").integer(3))
        .reset()
        .build();
    assert_eq!(node.name, "root");
    assert!(node.values.is_empty());
    assert!(node.properties.is_empty());
    assert_eq!(node.children.len(), 1);
    assert_eq!(node.children[0].values, ints(&[3]));
}

#[test]
fn node_reset_values_and_reset_properties_are_separate() {
    let b = builder("n").integer(1).put(&mut t("k"), KdlValue::Int(2));
    let node = b.reset_values().build();
    assert!(node.values.is_empty());
    assert_eq!(node.properties.len(), 1);
    let b = builder("n").integer(1).put(&mut t("k"), KdlValue::Int(2));
    let node = b.reset_properties().build();
    assert_eq!(node.values, ints(&[1]));
    assert!(node.properties.is_empty());
}

#[test]
fn node_reset_child_resets_one_child() {
    let node = builder("root")
        .child(builder("a").integer(1).put(&mut t("k"), KdlValue::Null))
        .child(builder("b").integer(2).put(&mut t("k"), KdlValue::Null).child(builder("deep").integer(9)))
        .child(builder("c").integer(3))
        .reset_child(1)
        .build();
    assert_eq!(node.children[0].values, ints(&[1]));
    assert_eq!(node.children[0].properties.len(), 1);
    assert_eq!(node.children[1].name, "b");
    assert!(node.children[1].values.is_empty());
    assert!(node.children[1].properties.is_empty());
    assert_eq!(node.children[1].children[0].values, ints(&[9]));
    assert_eq!(node.children[2].values, ints(&[3]));
}

#[test]
fn node_reset_children_values_goes_one_level() {
    let node = builder("root")
        .integer(0)
        .child(builder("a").integer(1).put(&mut t("k"), KdlValue::Null).child(builder("deep").integer(9)))
        .child(builder("b").integer(2))
        .reset_children_values()
        .build();
    assert_eq!(node.values, ints(&[0]));
    assert!(node.children[0].values.is_empty());
    assert_eq!(node.children[0].properties.len(), 1);
    assert_eq!(node.children[0].children[0].values, ints(&[9]));
    assert!(node.children[1].values.is_empty());
    assert_eq!(node.children.len(), 2);
}

#[test]
fn node_reset_children_properties_goes_one_level() {
    let node = builder("root")
        .put(&mut t("own"), KdlValue::Null)
        .child(
            builder("a")
                .integer(1)
                .put(&mut t("k"), KdlValue::Null)
                .child(builder("deep").put(&mut t("d"), KdlValue::Null)),
        )
        .reset_children_properties()
        .build();
    assert_eq!(node.properties.len(), 1);
    assert!(node.children[0].properties.is_empty());
    assert_eq!(node.children[0].values, ints(&[1]));
    assert_eq!(node.children[0].children[0].properties.len(), 1);
}

#[test]
fn node_untouched_by_the_idle_resets() {
    let make = || builder("root").integer(1).child(builder("kid").integer(2));
    assert_eq!(make().reset_children(), make());
    assert_eq!(make().reset_child_values(0), make());
    assert_eq!(make().reset_child_properties(0), make());
    let mut other = builder("other").child(builder("x"));
    assert_eq!(make().extend_children(&mut other), make());
    assert_eq!(other, builder("other").child(builder("x")));
}

#[test]
fn node_extend_merges_the_other_builder() {
    let left = builder("left")
        .integer(1)
        .put(&mut t("shared"), KdlValue::Int(1))
        .put(&mut t("l"), KdlValue::Null)
        .child(builder("lc"));
    let right = builder("right")
        .integer(2)
        .put(&mut t("shared"), KdlValue::Int(2))
        .put(&mut t("r"), KdlValue::Null)
        .child(builder("rc"));
    let node = left.extend(right).build();
    assert_eq!(node.name, "left");
    assert_eq!(node.values, ints(&[1, 2]));
    assert_eq!(node.properties.get("shared"), Some(&KdlValue::Int(2)));
    assert_eq!(node.properties.len(), 3);
    assert_eq!(node.children, vec![bare("lc"), bare("rc")]);
}

#[test]
fn nested_single_children_build_in_nesting_order() {
    let depth: i64 = 6;
    let mut b = builder("level5").integer(5);
    let mut level = depth - 2;
    while level >= 0 {
        b = builder(&format!("level{}", level)).integer(level).child(b);
        level -= 1;
    }
    let root = b.build();
    let mut at = &root;
    for k in 0..depth {
        assert_eq!(at.name, format!("level{}", k));
        assert_eq!(at.values, ints(&[k]));
        assert!(at.properties.is_empty());
        if k + 1 < depth {
            assert_eq!(at.children.len(), 1);
            at = &at.children[0];
        } else {
            assert!(at.children.is_empty());
        }
    }
}

#[test]
fn built_shape_counts_appends_less_removals() {
    let node = builder("n")
        .integer(1)
        .integer(2)
        .integer(3)
        .rem(0)
        .integer(4)
        .put(&mut t("a"), KdlValue::Int(1))
        .put(&mut t("a"), KdlValue::Int(2))
        .put(&mut t("b"), KdlValue::Int(3))
        .child(builder("x"))
        .child(builder("y"))
        .child(builder("z"))
        .remove_child(2)
        .build();
    assert_eq!(node.values.len(), 4 - 1);
    assert_eq!(node.properties.len(), 2);
    assert_eq!(node.children.len(), 3 - 1);
}

#[test]
fn children_proxy_builds_each_child() {
    assert_eq!(KdlChildrenProxy::new().build(), vec![]);
    let proxy = KdlChildrenProxy(vec![builder("a").integer(1), builder("b")]);
    let built = proxy.build();
    assert_eq!(built.len(), 2);
    assert_eq!(built[0].values, ints(&[1]));
    assert_eq!(built[1], bare("b"));
}

#[test]
fn build_copies_values_of_every_kind() {
    let node = builder("n")
        .add(KdlValue::Float(-0.5))
        .put(&mut t("f"), KdlValue::Float(2.25))
        .put(&mut t("s"), KdlValue::String(t("text")))
        .build();
    assert_eq!(node.values, vec![KdlValue::Float(-0.5)]);
    assert_eq!(node.properties.get("f"), Some(&KdlValue::Float(2.25)));
    assert_eq!(node.properties.get("s"), Some(&KdlValue::String(t("text"))));
}
