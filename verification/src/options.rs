use vstd::prelude::*;

use crate::strings::join;

verus! {

/// The command line: an optional class path (an archive of classes) and the
/// name of the class to run, with any further arguments.
#[derive(Debug)]
pub struct Options {
    pub classpath: Option<String>,
    pub classname: Vec<String>,
}

impl Options {
    /// The file name of the class to run: its name followed by `.class`.
    pub fn fq_klass_name(&self) -> (r: String)
        requires
            self.classname@.len() > 0,
        ensures
            r@ == self.classname@[0]@ + ".class"@,
    {
        let f = self.f_name();
        let r = join(f.as_str(), ".class", "");
        proof {
            reveal_strlit("");
            assert(r@ =~= f@ + ".class"@);
        }
        r
    }

    /// The name of the class to run: the first class-name argument.
    pub fn f_name(&self) -> (r: String)
        requires
            self.classname@.len() > 0,
        ensures
            r@ == self.classname@[0]@,
    {
        self.classname[0].clone()
    }
}

} // verus!
