use pocketsphinx::chain::require_handle;
use pocketsphinx::{Cursor, ErrorKind};

/// A stand-in for a chain of the engine: the nodes have the addresses
/// 1 to `len`, and the chain counts as allocated until it is given back.
struct Chain {
    len: usize,
    allocated: bool,
    releases: usize,
}

impl Chain {
    fn new(len: usize) -> Chain {
        Chain { len, allocated: len > 0, releases: 0 }
    }

    fn first(&self) -> usize {
        if self.len > 0 {
            1
        } else {
            0
        }
    }

    /// The step from `node`; past the last node the chain gives itself back.
    fn next(&mut self, node: usize) -> usize {
        assert!(self.allocated);
        if node < self.len {
            node + 1
        } else {
            self.allocated = false;
            self.releases += 1;
            0
        }
    }

    fn free(&mut self, _node: usize) {
        assert!(self.allocated);
        self.allocated = false;
        self.releases += 1;
    }
}

/// Walks `steps` nodes of a chain of `len` nodes, then drops the cursor.
fn walk_and_drop(len: usize, steps: usize) -> Chain {
    let mut chain = Chain::new(len);
    let mut cursor = Cursor::new(chain.first());
    for _ in 0..steps {
        match cursor.current() {
            Some(node) => {
                let successor = chain.next(node);
                assert_eq!(cursor.advance(successor), Some(node));
            }
            None => assert_eq!(cursor.advance(7), None),
        }
    }
    if let Some(node) = cursor.dispose() {
        chain.free(node);
    }
    chain
}

#[test]
fn a_cursor_visits_the_nodes_in_order() {
    let mut chain = Chain::new(3);
    let mut cursor = Cursor::new(chain.first());
    let mut visited = vec![];
    while let Some(node) = cursor.current() {
        let successor = chain.next(node);
        visited.push(cursor.advance(successor).unwrap());
    }
    assert_eq!(visited, vec![1, 2, 3]);
    assert_eq!(cursor.dispose(), None);
}

#[test]
fn early_disposal_gives_the_chain_back_once() {
    for steps in 0..3 {
        let chain = walk_and_drop(3, steps);
        assert!(!chain.allocated);
        assert_eq!(chain.releases, 1);
    }
}

#[test]
fn disposal_after_the_end_releases_nothing_more() {
    for steps in 3..6 {
        let chain = walk_and_drop(3, steps);
        assert!(!chain.allocated);
        assert_eq!(chain.releases, 1);
    }
}

#[test]
fn dropping_early_leaves_as_much_as_walking_to_the_end() {
    let dropped = walk_and_drop(5, 2);
    let exhausted = walk_and_drop(5, 5);
    assert_eq!(dropped.allocated, exhausted.allocated);
    assert_eq!(dropped.releases, exhausted.releases);
}

#[test]
fn an_empty_chain_needs_no_release() {
    let chain = walk_and_drop(0, 0);
    assert_eq!(chain.releases, 0);
    let cursor = Cursor::new(0);
    assert_eq!(cursor.current(), None);
    assert_eq!(cursor.dispose(), None);
}

#[test]
fn an_exhausted_cursor_cannot_be_started_again() {
    let mut cursor = Cursor::new(8);
    assert_eq!(cursor.advance(0), Some(8));
    assert_eq!(cursor.current(), None);
    assert_eq!(cursor.advance(16), None);
    assert_eq!(cursor.current(), None);
    assert_eq!(cursor.dispose(), None);
}

#[test]
fn disposal_names_the_node_the_walk_stands_on() {
    let mut cursor = Cursor::new(8);
    cursor.advance(16);
    cursor.advance(24);
    assert_eq!(cursor.dispose(), Some(24));
}

#[test]
fn a_missing_object_becomes_the_failure_asked_for() {
    assert_eq!(
        require_handle(0, ErrorKind::GrammarSyntaxError).unwrap_err().kind,
        ErrorKind::GrammarSyntaxError
    );
    assert_eq!(
        require_handle(0, ErrorKind::ConfigurationFailure).unwrap_err().kind,
        ErrorKind::ConfigurationFailure
    );
    assert_eq!(require_handle(4096, ErrorKind::EngineFailure).unwrap(), 4096);
}
