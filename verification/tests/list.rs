use refreshers::list::IntrusiveList;

fn three() -> (IntrusiveList<char>, usize, usize, usize) {
    let mut list = IntrusiveList::new();
    let a = list.new_node('a');
    let b = list.new_node('b');
    let c = list.new_node('c');
    list.push_back(a);
    list.push_back(b);
    list.push_back(c);
    (list, a, b, c)
}

fn walk_forward(list: &IntrusiveList<char>) -> Vec<usize> {
    let mut out = Vec::new();
    let mut cur = list.head();
    while let Some(n) = cur {
        out.push(n);
        cur = list.next(n);
    }
    out
}

fn walk_backward(list: &IntrusiveList<char>) -> Vec<usize> {
    let mut out = Vec::new();
    let mut cur = list.tail();
    while let Some(n) = cur {
        out.push(n);
        cur = list.prev(n);
    }
    out
}

#[test]
fn new_list_is_empty() {
    let list: IntrusiveList<u8> = IntrusiveList::new();
    assert_eq!(list.len(), 0);
    assert_eq!(list.slots(), 0);
    assert_eq!(list.head(), None);
    assert_eq!(list.tail(), None);
    assert!(list.nodes_forward().is_empty());
    assert!(list.nodes_backward().is_empty());
}

#[test]
fn new_node_is_unlinked() {
    let mut list = IntrusiveList::new();
    let a = list.new_node(7u32);
    assert_eq!(a, 0);
    assert_eq!(list.slots(), 1);
    assert_eq!(list.len(), 0);
    assert_eq!(list.next(a), None);
    assert_eq!(list.prev(a), None);
    assert_eq!(*list.value(a), 7);
    assert!(!list.contains(a));
    assert!(!list.contains(5));
}

#[test]
fn push_back_three_traverses_both_ways() {
    let (list, a, b, c) = three();
    assert_eq!(walk_forward(&list), vec![a, b, c]);
    assert_eq!(walk_backward(&list), vec![c, b, a]);
    assert_eq!(list.nodes_forward(), vec![a, b, c]);
    assert_eq!(list.nodes_backward(), vec![c, b, a]);
    let values: Vec<char> = list.nodes_forward().iter().map(|n| *list.value(*n)).collect();
    assert_eq!(values, vec!['a', 'b', 'c']);
}

#[test]
fn push_back_first_node_is_head_and_tail() {
    let mut list = IntrusiveList::new();
    let a = list.new_node(1u8);
    list.push_back(a);
    assert_eq!(list.head(), Some(a));
    assert_eq!(list.tail(), Some(a));
    assert_eq!(list.next(a), None);
    assert_eq!(list.prev(a), None);
    assert_eq!(list.len(), 1);
    assert!(list.contains(a));
}

#[test]
fn len_counts_pushes_minus_removes() {
    let (mut list, a, b, c) = three();
    assert_eq!(list.len(), 3);
    list.remove(b);
    assert_eq!(list.len(), 2);
    list.push_back(b);
    assert_eq!(list.len(), 3);
    list.remove(a);
    list.remove(c);
    assert_eq!(list.len(), 1);
    list.remove(b);
    assert_eq!(list.len(), 0);
}

#[test]
fn remove_head_moves_head_to_second() {
    let (mut list, a, b, c) = three();
    list.remove(a);
    assert_eq!(list.head(), Some(b));
    assert_eq!(list.prev(b), None);
    assert_eq!(list.tail(), Some(c));
    assert_eq!(walk_forward(&list), vec![b, c]);
}

#[test]
fn remove_only_node_clears_head_and_tail() {
    let mut list = IntrusiveList::new();
    let a = list.new_node(1u8);
    list.push_back(a);
    list.remove(a);
    assert_eq!(list.head(), None);
    assert_eq!(list.tail(), None);
    assert_eq!(list.len(), 0);
    assert!(!list.contains(a));
}

#[test]
fn remove_tail_moves_tail_to_second_to_last() {
    let (mut list, a, b, c) = three();
    list.remove(c);
    assert_eq!(list.tail(), Some(b));
    assert_eq!(list.next(b), None);
    assert_eq!(list.head(), Some(a));
    assert_eq!(walk_backward(&list), vec![b, a]);
}

#[test]
fn remove_middle_joins_neighbours() {
    let (mut list, a, b, c) = three();
    list.remove(b);
    assert_eq!(list.next(a), Some(c));
    assert_eq!(list.prev(c), Some(a));
    assert_eq!(list.head(), Some(a));
    assert_eq!(list.tail(), Some(c));
    assert_eq!(walk_forward(&list), vec![a, c]);
    assert_eq!(walk_backward(&list), vec![c, a]);
}

#[test]
fn removed_node_has_no_links() {
    let (mut list, a, b, c) = three();
    list.remove(b);
    assert_eq!(list.next(b), None);
    assert_eq!(list.prev(b), None);
    list.remove(a);
    assert_eq!(list.next(a), None);
    assert_eq!(list.prev(a), None);
    list.remove(c);
    assert_eq!(list.next(c), None);
    assert_eq!(list.prev(c), None);
}

#[test]
fn removed_node_can_be_pushed_again() {
    let (mut list, a, b, c) = three();
    list.remove(a);
    list.push_back(a);
    assert_eq!(walk_forward(&list), vec![b, c, a]);
    assert_eq!(walk_backward(&list), vec![a, c, b]);
    assert_eq!(*list.value(a), 'a');
}

#[test]
fn contains_tells_linked_from_unlinked() {
    let (mut list, a, b, c) = three();
    let d = list.new_node('d');
    assert!(list.contains(a) && list.contains(b) && list.contains(c));
    assert!(!list.contains(d));
    list.remove(a);
    assert!(!list.contains(a));
    assert!(list.contains(b));
}
