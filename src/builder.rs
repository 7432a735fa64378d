//! Configuration of a server launch.
use vstd::prelude::*;

verus! {

/// The settings of a builder: each one is absent until it is set.
pub struct BuilderView {
    pub jar_path: Option<Seq<char>>,
    pub max_memory: Option<Seq<char>>,
    pub min_memory: Option<Seq<char>>,
}

/// A struct for configuring and launching a server.
#[derive(Debug, Clone)]
pub struct PuppetBuilder {
    jar_path: Option<String>,
    max_memory: Option<String>,
    min_memory: Option<String>,
}

/// The value of a setting, or its default where it was not set.
pub open spec fn or_default(v: Option<Seq<char>>, d: Seq<char>) -> Seq<char> {
    match v {
        Some(s) => s,
        None => d,
    }
}

/// The program that runs the server.
pub open spec fn launch_program() -> Seq<char> {
    "java"@
}

/// The jar file used where none was set.
pub open spec fn default_jar_path() -> Seq<char> {
    "minecraft_server.jar"@
}

/// The memory bound used where none was set.
pub open spec fn default_memory() -> Seq<char> {
    "2g"@
}

/// The command line that launches the server: the program, then its
/// arguments.
pub open spec fn launch_command_of(b: BuilderView) -> Seq<Seq<char>> {
    seq![
        launch_program(),
        "-Xmx"@ + or_default(b.max_memory, default_memory()),
        "-Xms"@ + or_default(b.min_memory, default_memory()),
        "-jar"@,
        or_default(b.jar_path, default_jar_path()),
        "nogui"@,
    ]
}

impl View for PuppetBuilder {
    type V = BuilderView;

    closed spec fn view(&self) -> BuilderView {
        BuilderView {
            jar_path: match self.jar_path {
                Some(s) => Some(s@),
                None => None,
            },
            max_memory: match self.max_memory {
                Some(s) => Some(s@),
                None => None,
            },
            min_memory: match self.min_memory {
                Some(s) => Some(s@),
                None => None,
            },
        }
    }
}

impl Default for PuppetBuilder {
    fn default() -> (r: PuppetBuilder)
        ensures
            r@ == (BuilderView { jar_path: None, max_memory: None, min_memory: None }),
    {
        PuppetBuilder { jar_path: None, max_memory: None, min_memory: None }
    }
}

impl PuppetBuilder {
    /// A builder with nothing set.
    pub fn new() -> (r: PuppetBuilder)
        ensures
            r@ == (BuilderView { jar_path: None, max_memory: None, min_memory: None }),
    {
        PuppetBuilder { jar_path: None, max_memory: None, min_memory: None }
    }

    /// Sets the path of the server's jar file. The server runs in the
    /// current working directory, wherever the jar lies.
    pub fn jar_path(self, jar_path: &str) -> (r: PuppetBuilder)
        ensures
            r@ == (BuilderView { jar_path: Some(jar_path@), ..self@ }),
    {
        PuppetBuilder { jar_path: Some(jar_path.to_owned()), ..self }
    }

    /// Sets the maximum memory (`-Xmx`), such as `2G` or `1024K`.
    pub fn max_memory(self, max_memory: &str) -> (r: PuppetBuilder)
        ensures
            r@ == (BuilderView { max_memory: Some(max_memory@), ..self@ }),
    {
        PuppetBuilder { max_memory: Some(max_memory.to_owned()), ..self }
    }

    /// Sets the minimum memory (`-Xms`), such as `2G` or `1024K`.
    pub fn min_memory(self, min_memory: &str) -> (r: PuppetBuilder)
        ensures
            r@ == (BuilderView { min_memory: Some(min_memory@), ..self@ }),
    {
        PuppetBuilder { min_memory: Some(min_memory.to_owned()), ..self }
    }

    /// The command line that launches the server, defaults filled in: the
    /// program first, then its arguments.
    pub fn launch_command(&self) -> (r: Vec<String>)
        ensures
            r@.map_values(|a: String| a@) == launch_command_of(self@),
    {
        let max = match &self.max_memory {
            Some(m) => m.as_str(),
            None => "2g",
        };
        let min = match &self.min_memory {
            Some(m) => m.as_str(),
            None => "2g",
        };
        let jar = match &self.jar_path {
            Some(j) => j.clone(),
            None => String::from_str("minecraft_server.jar"),
        };
        let r = vec![
            String::from_str("java"),
            String::from_str("-Xmx").concat(max),
            String::from_str("-Xms").concat(min),
            String::from_str("-jar"),
            jar,
            String::from_str("nogui"),
        ];
        assert(r@.map_values(|a: String| a@) =~= launch_command_of(self@));
        r
    }
}

} // verus!
