//! The request for one file below a mount's root.

use vstd::prelude::*;
use crate::media::media_type_of_name;
use crate::path::{
    components, components_of, contained, is_servable, lemma_contained_on_any_host, servable,
    texts,
};
use crate::text::chars_of;

verus! {

/// A file below a mount's root: the root directory, and the names that lead
/// from it to the file, one directory entry each. Every value of this type
/// lies below its root: each of its names is servable, on whatever host.
#[derive(Debug)]
pub struct FileRequest {
    root: String,
    components: Vec<String>,
}

/// What a `FileRequest` is in contracts.
pub struct FileRequestView {
    pub root: Seq<char>,
    pub components: Seq<Seq<char>>,
}

impl FileRequestView {
    /// The name of the file itself, where the request names one.
    pub open spec fn file_name(self) -> Option<Seq<char>> {
        if self.components.len() > 0 {
            Some(self.components.last())
        } else {
            None
        }
    }

    /// The media type that the file is served with, if any.
    pub open spec fn media_type(self) -> Option<Seq<char>> {
        match self.file_name() {
            Some(name) => media_type_of_name(name),
            None => None,
        }
    }
}

impl View for FileRequest {
    type V = FileRequestView;

    closed spec fn view(&self) -> FileRequestView {
        FileRequestView { root: self.root@, components: texts(self.components@) }
    }
}

impl Clone for FileRequest {
    fn clone(&self) -> (copy: FileRequest)
        ensures
            copy@ == self@,
    {
        proof {
            use_type_invariant(self);
        }
        let mut names: Vec<String> = Vec::new();
        let mut i: usize = 0;
        while i < self.components.len()
            invariant
                i <= self.components.len(),
                names@.len() == i,
                forall|k: int| 0 <= k < i ==> names@[k]@ == self.components@[k]@,
            decreases self.components.len() - i,
        {
            names.push(self.components[i].clone());
            i += 1;
        }
        assert(texts(names@) =~= texts(self.components@));
        FileRequest { root: self.root.clone(), components: names }
    }
}

/// The view of an optional file request.
pub open spec fn request_of(r: Option<FileRequest>) -> Option<FileRequestView> {
    match r {
        Some(r) => Some(r@),
        None => None,
    }
}

impl FileRequest {
    #[verifier::type_invariant]
    spec fn below_root(&self) -> bool {
        contained(texts(self.components@), Seq::empty())
    }

    /// The request for the file that these names lead to below `root`, on a
    /// host where `separators` part a path besides `/`; `None` where one of the
    /// names is not servable there.
    pub fn new(root: String, names: Vec<String>, separators: &Vec<char>) -> (request: Option<
        FileRequest,
    >)
        ensures
            request_of(request) == if contained(texts(names@), separators@) {
                Some(FileRequestView { root: root@, components: texts(names@) })
            } else {
                None
            },
    {
        let mut i: usize = 0;
        while i < names.len()
            invariant
                i <= names.len(),
                forall|k: int| 0 <= k < i ==> servable(#[trigger] texts(names@)[k], separators@),
            decreases names.len() - i,
        {
            if !is_servable(&chars_of(names[i].as_str()), separators) {
                assert(!servable(texts(names@)[i as int], separators@));
                return None;
            }
            i += 1;
        }
        proof {
            lemma_contained_on_any_host(texts(names@), separators@);
        }
        Some(FileRequest { root, components: names })
    }

    /// The request for the file that the rest of a request path names below
    /// `root`: its non-empty segments, percent-decoded and placed in turn.
    /// `None` where a segment is refused.
    pub fn below(root: String, rest: &str, separators: &Vec<char>) -> (request: Option<
        FileRequest,
    >)
        ensures
            request_of(request) == match components_of(rest@, separators@) {
                Some(names) => Some(FileRequestView { root: root@, components: names }),
                None => None,
            },
            request matches Some(r) ==> contained(r@.components, separators@),
    {
        match components(rest, separators) {
            Some(names) => {
                proof {
                    lemma_contained_on_any_host(texts(names@), separators@);
                }
                Some(FileRequest { root, components: names })
            },
            None => None,
        }
    }

    /// The root directory.
    pub fn root(&self) -> (root: &String)
        ensures
            root@ == self@.root,
    {
        &self.root
    }

    /// The names that lead from the root to the file. Each is servable, so
    /// the file lies below the root.
    pub fn components(&self) -> (names: &Vec<String>)
        ensures
            texts(names@) == self@.components,
            contained(self@.components, Seq::empty()),
    {
        proof {
            use_type_invariant(self);
        }
        &self.components
    }

    /// The name of the file itself: the last component, where there is one.
    pub fn file_name(&self) -> (name: Option<&String>)
        ensures
            match name {
                Some(name) => self@.file_name() == Some(name@),
                None => self@.file_name() is None,
            },
    {
        let n = self.components.len();
        if n > 0 {
            Some(&self.components[n - 1])
        } else {
            None
        }
    }
}

} // verus!
