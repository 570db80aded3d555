//! The arguments of a route declaration: a path template and the methods it
//! is declared for.

use crate::url_pattern::error::InvalidUrlPattern;
use crate::url_pattern::pattern::{compile, UrlPattern};
use crate::url_pattern::segment::SegmentPatternView;
use vstd::prelude::*;
use vstd::string::*;

verus! {

/// The names of all the methods, in the order in which a declaration
/// without methods stands for them.
pub open spec fn all_method_names() -> Seq<Seq<char>> {
    seq![
        "Get"@,
        "Put"@,
        "Head"@,
        "Post"@,
        "Patch"@,
        "Trace"@,
        "Delete"@,
        "Connect"@,
        "Options"@,
    ]
}

/// The views of a sequence of owned names.
pub open spec fn name_views(names: Seq<String>) -> Seq<Seq<char>> {
    names.map_values(|name: String| name@)
}

/// The arguments of a route declaration.
pub struct Args {
    /// The names of the methods that the route is declared for
    pub methods: Vec<String>,
    /// The compiled template
    pub url: UrlPattern,
}

impl Args {
    /// Reads the arguments from the template of a declaration. No method is
    /// named yet.
    pub fn parse(path: &str) -> (r: Result<Args, InvalidUrlPattern>)
        ensures
            match r {
                Ok(args) => compile(path@) == Ok::<Seq<SegmentPatternView>, InvalidUrlPattern>(
                    args.url@,
                ) && args.methods@.len() == 0,
                Err(e) => compile(path@) == Err::<Seq<SegmentPatternView>, InvalidUrlPattern>(e),
            },
    {
        match UrlPattern::parse(path) {
            Ok(url) => Ok(Args { methods: Vec::new(), url }),
            Err(e) => Err(e),
        }
    }

    /// Names one more method.
    pub fn method(self, name: &str) -> (args: Args)
        ensures
            args.url@ == self.url@,
            name_views(args.methods@) == name_views(self.methods@).push(name@),
    {
        let Args { methods, url } = self;
        let mut methods = methods;
        methods.push(name.to_owned());
        Args { methods, url }
    }

    /// The arguments with every method named, where none was named; as they
    /// are, where one was.
    pub fn or_all_methods(self) -> (args: Args)
        ensures
            args.url@ == self.url@,
            name_views(args.methods@) == if self.methods@.len() == 0 {
                all_method_names()
            } else {
                name_views(self.methods@)
            },
    {
        if self.methods.len() > 0 {
            return self;
        }
        let Args { methods: _, url } = self;
        let mut methods: Vec<String> = Vec::new();
        methods.push("Get".to_owned());
        methods.push("Put".to_owned());
        methods.push("Head".to_owned());
        methods.push("Post".to_owned());
        methods.push("Patch".to_owned());
        methods.push("Trace".to_owned());
        methods.push("Delete".to_owned());
        methods.push("Connect".to_owned());
        methods.push("Options".to_owned());
        Args { methods, url }
    }

    /// The message for a template that does not compile.
    pub fn refusal(error: InvalidUrlPattern) -> (message: String)
        ensures
            message@ == "Not a valid url pattern "@ + error.message(),
    {
        let mut message = "Not a valid url pattern ".to_owned();
        let reason = error.to_string();
        message.append(reason.as_str());
        message
    }
}

/// A stage between the router and a handler. None is defined yet.
pub struct Middleware {}

} // verus!
