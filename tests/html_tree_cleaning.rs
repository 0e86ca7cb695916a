use chrome_cookie::html_tree::{HtmlTree, Node, NodeData};

fn node(data: NodeData, parent: Option<usize>, children: Vec<usize>) -> Node {
    Node { data, parent, children }
}

fn el(name: &str) -> NodeData {
    NodeData::Element(name.to_string())
}

fn text(t: &str) -> NodeData {
    NodeData::Text(t.to_string())
}

fn text_at(tree: &HtmlTree, i: usize) -> &str {
    match &tree.nodes[i].data {
        NodeData::Text(t) => t.as_str(),
        _ => panic!("not a text node"),
    }
}

#[test]
fn p_around_single_inline_element_is_unwrapped() {
    // document > body > [p > img, p > [text, em]]
    let mut tree = HtmlTree {
        nodes: vec![
            node(NodeData::Document, None, vec![1]),
            node(el("body"), Some(0), vec![2, 4]),
            node(el("p"), Some(1), vec![3]),
            node(el("img"), Some(2), vec![]),
            node(el("p"), Some(1), vec![5, 6]),
            node(text("x"), Some(4), vec![]),
            node(el("em"), Some(4), vec![]),
        ],
    };
    let targets = tree.collect_nodes_to_unwrap();
    assert_eq!(targets, vec![(1, 2, 3)]);
    tree.clean_html_structure();
    assert_eq!(tree.nodes[1].children, vec![3, 4]);
    assert_eq!(tree.nodes[3].parent, Some(1));
}

#[test]
fn nested_list_moves_after_its_item() {
    // ul > [li > [text, ul > li], li]
    let mut tree = HtmlTree {
        nodes: vec![
            node(NodeData::Document, None, vec![1]),
            node(el("ul"), Some(0), vec![2, 6]),
            node(el("li"), Some(1), vec![3, 4]),
            node(text("one"), Some(2), vec![]),
            node(el("ul"), Some(2), vec![5]),
            node(el("li"), Some(4), vec![]),
            node(el("li"), Some(1), vec![]),
        ],
    };
    assert_eq!(tree.collect_nested_lists(), vec![(1, 2, 4)]);
    tree.clean_html_structure();
    assert_eq!(tree.nodes[1].children, vec![2, 4, 6]);
    assert_eq!(tree.nodes[2].children, vec![3]);
    assert_eq!(tree.nodes[4].parent, Some(1));
}

#[test]
fn text_loses_line_feeds() {
    // p > [code > text, text]
    let mut tree = HtmlTree {
        nodes: vec![
            node(NodeData::Document, None, vec![1]),
            node(el("p"), Some(0), vec![2, 4]),
            node(el("code"), Some(1), vec![3]),
            node(text("a\n"), Some(2), vec![]),
            node(text("\n\nafter\n\n"), Some(1), vec![]),
        ],
    };
    tree.clean_html_structure();
    assert_eq!(text_at(&tree, 3), "a");
    assert_eq!(text_at(&tree, 4), "after");
}

#[test]
fn unwrap_ignores_foreign_parent() {
    let mut tree = HtmlTree {
        nodes: vec![
            node(NodeData::Document, None, vec![1]),
            node(el("p"), Some(0), vec![2]),
            node(el("a"), Some(1), vec![]),
        ],
    };
    tree.unwrap_p_tag(2, 1, 2);
    assert_eq!(tree.nodes[0].children, vec![1]);
    tree.unwrap_p_tag(0, 1, 2);
    assert_eq!(tree.nodes[0].children, vec![2]);
    assert_eq!(tree.nodes[2].parent, Some(0));
}
