use vstd::prelude::*;

verus! {

/// Name under which the program presents itself.
pub const PROGRAM_NAME: &'static str = "toutui";

/// Version of this build, the package version that the manifest declares.
pub const VERSION: &'static str = "0.3.1";

/// The line that reports version `v`: the version itself, then a line terminator.
pub open spec fn version_line(v: Seq<char>) -> Seq<char> {
    v.push('\n')
}

/// What the entry routine prints for trailing arguments `args` when the build's
/// version is `v`: the version line as soon as one argument is there,
/// whatever it holds, and nothing otherwise.
pub open spec fn entry_output(v: Seq<char>, args: Seq<Seq<char>>) -> Seq<char> {
    if args.len() > 0 {
        version_line(v)
    } else {
        Seq::empty()
    }
}

/// Immutable description of the command: its name and the version it reports.
pub struct CommandDescriptor {
    pub name: &'static str,
    pub version: &'static str,
}

impl CommandDescriptor {
    /// A descriptor with the given name and version.
    pub fn new(name: &'static str, version: &'static str) -> (r: Self)
        ensures
            r.name@ == name@,
            r.version@ == version@,
    {
        CommandDescriptor { name, version }
    }

    /// The descriptor of this program: its name and the version of this build.
    pub fn program() -> (r: Self)
        ensures
            r.name@ == PROGRAM_NAME@,
            r.version@ == VERSION@,
    {
        CommandDescriptor::new(PROGRAM_NAME, VERSION)
    }

    /// The line that reports this descriptor's version.
    pub fn report_line(&self) -> (r: String)
        ensures
            r@ == version_line(self.version@),
    {
        let mut line = self.version.to_owned();
        line.append("\n");
        proof {
            reveal_strlit("\n");
        }
        line
    }

    /// What the entry routine prints for the trailing arguments `args`: the version
    /// line when there is at least one, the empty text when there is none.
    pub fn output_for(&self, args: &Vec<String>) -> (r: String)
        ensures
            r@ == entry_output(self.version@, args.deep_view()),
    {
        if args.len() > 0 {
            self.report_line()
        } else {
            String::new()
        }
    }
}

/// The entry routine: given the arguments that follow the program name, returns
/// exactly what is to be written to standard output, namely this build's
/// version and a line terminator when any argument is present, and nothing
/// when none is.
pub fn clap(args: &Vec<String>) -> (out: String)
    ensures
        out@ == entry_output(VERSION@, args.deep_view()),
        args@.len() > 0 ==> out@ == version_line(VERSION@),
        args@.len() == 0 ==> out@.len() == 0,
{
    let command = CommandDescriptor::program();
    command.output_for(args)
}

/// Any two invocations that each carry at least one trailing argument write
/// the same text, whatever the arguments hold: this build's version followed
/// by a line terminator.
pub proof fn lemma_report_is_stable(first: Seq<Seq<char>>, second: Seq<Seq<char>>)
    requires
        first.len() > 0,
        second.len() > 0,
    ensures
        entry_output(VERSION@, first) == entry_output(VERSION@, second),
        entry_output(VERSION@, first) == version_line(VERSION@),
{
}

/// The version line of this build is a single line: the version holds no line
/// terminator, and the one the line ends with is its last character.
pub proof fn lemma_report_is_one_line()
    ensures
        version_line(VERSION@).len() == VERSION@.len() + 1,
        version_line(VERSION@).last() == '\n',
        forall|i: int| 0 <= i < VERSION@.len() ==> version_line(VERSION@)[i] != '\n',
{
    reveal_strlit("0.3.1");
}

} // verus!
