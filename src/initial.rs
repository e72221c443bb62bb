use vstd::prelude::*;
use crate::markdown::{is_markdown_file, is_markdown_path};

verus! {

/// The document path that start-up keeps from the first command-line
/// argument: the argument itself where it names a markdown document,
/// nothing otherwise.
pub open spec fn markdown_arg(arg: Option<Seq<char>>) -> Option<Seq<char>> {
    match arg {
        Some(p) => if is_markdown_path(p) {
            Some(p)
        } else {
            None
        },
        None => None,
    }
}

/// The path of a document handed to the application when it started
/// (a markdown file opened from the desktop), held until the window asks
/// for it, and handed out at most once.
pub struct InitialFile {
    path: Option<String>,
}

impl View for InitialFile {
    type V = Option<Seq<char>>;

    /// The path still waiting to be handed out, if any.
    closed spec fn view(&self) -> Option<Seq<char>> {
        self.path.deep_view()
    }
}

impl InitialFile {
    /// A slot that holds `path`.
    pub fn new(path: Option<String>) -> (r: Self)
        ensures
            r@ == path.deep_view(),
    {
        InitialFile { path }
    }

    /// The slot for the first command-line argument `arg`: it holds the
    /// argument where it names a markdown document, and is empty otherwise.
    pub fn from_arg(arg: Option<String>) -> (r: Self)
        ensures
            r@ == markdown_arg(arg.deep_view()),
    {
        match arg {
            Some(p) => {
                if is_markdown_file(p.as_str()) {
                    InitialFile { path: Some(p) }
                } else {
                    InitialFile { path: None }
                }
            },
            None => InitialFile { path: None },
        }
    }

    /// Hands out the path held, and leaves the slot empty: a second call
    /// returns `None`.
    pub fn take(&mut self) -> (r: Option<String>)
        ensures
            r.deep_view() == old(self)@,
            final(self)@ == None::<Seq<char>>,
    {
        let mut r: Option<String> = None;
        std::mem::swap(&mut r, &mut self.path);
        r
    }
}

} // verus!
