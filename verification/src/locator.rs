//! Finding a package's executable in the directory tree of the package.

use crate::text::{same_text, texts};
use vstd::prelude::*;

verus! {

/// An entry of a directory: a file, or a directory with its own entries
/// in the order in which the file system lists them.
#[derive(Debug, PartialEq, Eq)]
pub enum Node {
    File { name: String },
    Dir { name: String, children: Vec<Node> },
}

/// The first file called `bin_name` that a depth-first search through
/// `nodes` meets, as the names on the way to it, the file's own name
/// last. A directory is searched to its end before the entry after it is
/// looked at; a directory called `bin_name` is searched like any other.
pub open spec fn first_match(nodes: Seq<Node>, bin_name: Seq<char>) -> Option<Seq<Seq<char>>>
    decreases nodes,
{
    if nodes.len() == 0 {
        None
    } else {
        let here = match nodes[0] {
            Node::File { name } => if name@ == bin_name {
                Some(seq![name@])
            } else {
                None
            },
            Node::Dir { name, children } => match first_match(children@, bin_name) {
                Some(below) => Some(seq![name@] + below),
                None => None,
            },
        };
        match here {
            Some(path) => Some(path),
            None => first_match(nodes.skip(1), bin_name),
        }
    }
}

/// Searches the entries of a directory, depth first, for a file called
/// exactly `bin_name`.
pub fn find_executable(nodes: &Vec<Node>, bin_name: &str) -> (r: Option<Vec<String>>)
    ensures
        match r {
            Some(path) => first_match(nodes@, bin_name@) == Some(texts(path@)),
            None => first_match(nodes@, bin_name@) is None,
        },
    decreases nodes,
{
    let mut i: usize = 0;
    assert(nodes@.skip(0) =~= nodes@);
    while i < nodes.len()
        invariant
            i <= nodes.len(),
            first_match(nodes@, bin_name@) == first_match(nodes@.skip(i as int), bin_name@),
        decreases nodes.len() - i,
    {
        let ghost rest = nodes@.skip(i as int);
        assert(rest[0] == nodes@[i as int]);
        assert(rest.skip(1) =~= nodes@.skip(i + 1));
        match &nodes[i] {
            Node::File { name } => {
                if same_text(name.as_str(), bin_name) {
                    let mut path: Vec<String> = Vec::new();
                    path.push(name.clone());
                    assert(texts(path@) =~= seq![name@]);
                    return Some(path);
                }
            },
            Node::Dir { name, children } => {
                match find_executable(children, bin_name) {
                    Some(below) => {
                        let mut path: Vec<String> = Vec::new();
                        path.push(name.clone());
                        let mut below = below;
                        let ghost tail = texts(below@);
                        path.append(&mut below);
                        assert(texts(path@) =~= seq![name@] + tail);
                        return Some(path);
                    },
                    None => {},
                }
            },
        }
        i += 1;
    }
    assert(nodes@.skip(nodes.len() as int) =~= Seq::<Node>::empty());
    None
}

/// What the search finds is a file of the name that was looked for: the
/// way to it is not empty and ends in that name.
pub proof fn lemma_match_ends_in_name(nodes: Seq<Node>, bin_name: Seq<char>)
    ensures
        match first_match(nodes, bin_name) {
            Some(path) => path.len() > 0 && path.last() == bin_name,
            None => true,
        },
    decreases nodes,
{
    if nodes.len() > 0 {
        match nodes[0] {
            Node::File { name } => {},
            Node::Dir { name, children } => {
                lemma_match_ends_in_name(children@, bin_name);
            },
        }
        lemma_match_ends_in_name(nodes.skip(1), bin_name);
    }
}

} // verus!
