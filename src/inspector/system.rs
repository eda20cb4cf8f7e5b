//! The system analyzer: what it makes of the package manager's output.
//! Running the commands is the caller's part; each function here takes what
//! a command printed and returns the value that the handler answers with.
use vstd::prelude::*;
use crate::json::{
    object_members, json_error_of, string_list_of, string_of_json, pairs_view, json_error,
    parse_object, decode_string_list, decode_string,
};
use crate::classify::{member, find_member};
use crate::text::{
    trim, before, find_arrow, lines_of, lines, starts_with, chars_of, string_of, slice_of,
    trim_chars, before_chars, arrow_index,
};

verus! {

/// Why an analysis failed, with the message of the failure it comes from.
#[derive(Debug)]
pub enum SystemAnalyzerError {
    NixCommandError(String),
    ParseError(String),
    GraphError(String),
    Io(String),
    Utf8(String),
    Json(String),
    Which(String),
}

impl SystemAnalyzerError {
    pub open spec fn spec_message(&self) -> Seq<char> {
        match self {
            SystemAnalyzerError::NixCommandError(m) => "Failed to execute nix command: "@ + m@,
            SystemAnalyzerError::ParseError(m) => "Failed to parse nix output: "@ + m@,
            SystemAnalyzerError::GraphError(m) => "Failed to generate graph: "@ + m@,
            SystemAnalyzerError::Io(m) => "IO error: "@ + m@,
            SystemAnalyzerError::Utf8(m) => "UTF-8 error: "@ + m@,
            SystemAnalyzerError::Json(m) => "JSON error: "@ + m@,
            SystemAnalyzerError::Which(m) => "Which error: "@ + m@,
        }
    }

    /// The error's message, naming what failed.
    pub fn message(&self) -> (r: String)
        ensures
            r@ == self.spec_message(),
    {
        let (mut out, detail) = match self {
            SystemAnalyzerError::NixCommandError(m) => (
                String::from_str("Failed to execute nix command: "),
                m,
            ),
            SystemAnalyzerError::ParseError(m) => (String::from_str("Failed to parse nix output: "), m),
            SystemAnalyzerError::GraphError(m) => (String::from_str("Failed to generate graph: "), m),
            SystemAnalyzerError::Io(m) => (String::from_str("IO error: "), m),
            SystemAnalyzerError::Utf8(m) => (String::from_str("UTF-8 error: "), m),
            SystemAnalyzerError::Json(m) => (String::from_str("JSON error: "), m),
            SystemAnalyzerError::Which(m) => (String::from_str("Which error: "), m),
        };
        out.append(detail.as_str());
        out
    }
}

/// What is known of the package manager and the running system.
#[derive(Debug)]
pub struct SystemInfo {
    pub nix_version: String,
    pub nix_cmd: String,
    pub system_flake: Option<String>,
    pub current_system: Option<String>,
    pub store_path: Option<String>,
}

/// What a development flake holds.
#[derive(Debug)]
pub struct FlakeInfo {
    pub path: String,
    pub locked_inputs: Vec<String>,
    pub outputs: Vec<String>,
    pub dev_shells: Vec<String>,
}

/// A flake's dependency graph, as DOT text and as nodes and edges.
#[derive(Debug)]
pub struct FlakeGraph {
    pub dot_graph: String,
    pub svg_output: Option<String>,
    pub nodes: Vec<String>,
    pub edges: Vec<(String, String)>,
}

/// A dependency graph as nodes and edges.
#[derive(Debug)]
pub struct DependencyGraph {
    pub nodes: Vec<String>,
    pub edges: Vec<(String, String)>,
}

/// The methods that the analyzer answers.
#[derive(Debug, Clone, Copy, PartialEq, Eq, Structural)]
pub enum Method {
    GetSystemInfo,
    AnalyzeDevFlake,
    GenerateFlakeGraph,
    GetDependencyGraph,
}

pub open spec fn spec_method_of(name: Seq<char>) -> Option<Method> {
    if name == "get_system_info"@ {
        Some(Method::GetSystemInfo)
    } else if name == "analyze_dev_flake"@ {
        Some(Method::AnalyzeDevFlake)
    } else if name == "generate_flake_graph"@ {
        Some(Method::GenerateFlakeGraph)
    } else if name == "get_dependency_graph"@ {
        Some(Method::GetDependencyGraph)
    } else {
        None
    }
}

/// The method that a request names, if the analyzer answers it.
pub fn method_of(name: &str) -> (r: Option<Method>)
    ensures
        r == spec_method_of(name@),
{
    let n = String::from_str(name);
    if n == String::from_str("get_system_info") {
        Some(Method::GetSystemInfo)
    } else if n == String::from_str("analyze_dev_flake") {
        Some(Method::AnalyzeDevFlake)
    } else if n == String::from_str("generate_flake_graph") {
        Some(Method::GenerateFlakeGraph)
    } else if n == String::from_str("get_dependency_graph") {
        Some(Method::GetDependencyGraph)
    } else {
        None
    }
}

/// The error message for a method that the analyzer does not answer.
pub fn method_not_found(name: &str) -> (r: String)
    ensures
        r@ == "Method "@ + name@ + " not found"@,
{
    let mut out = String::from_str("Method ");
    out.append(name);
    out.append(" not found");
    out
}

/// One line of DOT text, read as a node, an edge or neither.
pub enum DotItem {
    Node(Seq<char>),
    Edge(Seq<char>, Seq<char>),
    Other,
}

/// A line that ends in `;` after trimming is an edge when it holds exactly
/// one `->` (its two sides trimmed, the target cut at its first `;`), and
/// otherwise, when it holds no `->` and does not open or close a block, a
/// node (the text before its first `;`, trimmed, if not empty).
pub open spec fn dot_item(l: Seq<char>) -> DotItem {
    let t = trim(l);
    if t.len() > 0 && t.last() == ';' {
        match find_arrow(t) {
            Some(i) => {
                let rest = t.subrange((i + 2) as int, t.len() as int);
                if find_arrow(rest) is None {
                    DotItem::Edge(trim(t.subrange(0, i as int)), trim(before(rest, ';')))
                } else {
                    DotItem::Other
                }
            },
            None => if t[0] != '{' && t[0] != '}' && trim(before(t, ';')).len() > 0 {
                DotItem::Node(trim(before(t, ';')))
            } else {
                DotItem::Other
            },
        }
    } else {
        DotItem::Other
    }
}

pub open spec fn dot_nodes(ls: Seq<Seq<char>>) -> Seq<Seq<char>>
    decreases ls.len(),
{
    if ls.len() == 0 {
        Seq::empty()
    } else {
        dot_nodes(ls.drop_last()) + match dot_item(ls.last()) {
            DotItem::Node(n) => seq![n],
            _ => Seq::empty(),
        }
    }
}

pub open spec fn dot_edges(ls: Seq<Seq<char>>) -> Seq<(Seq<char>, Seq<char>)>
    decreases ls.len(),
{
    if ls.len() == 0 {
        Seq::empty()
    } else {
        dot_edges(ls.drop_last()) + match dot_item(ls.last()) {
            DotItem::Edge(a, b) => seq![(a, b)],
            _ => Seq::empty(),
        }
    }
}

pub open spec fn strings_view(v: Seq<String>) -> Seq<Seq<char>> {
    v.map_values(|s: String| s@)
}

enum DotLine {
    Node(String),
    Edge(String, String),
    Other,
}

spec fn dot_line_view(d: DotLine) -> DotItem {
    match d {
        DotLine::Node(n) => DotItem::Node(n@),
        DotLine::Edge(a, b) => DotItem::Edge(a@, b@),
        DotLine::Other => DotItem::Other,
    }
}

fn read_dot_line(l: &str) -> (r: DotLine)
    ensures
        dot_line_view(r) == dot_item(l@),
{
    let c = chars_of(l);
    let t = trim_chars(&c);
    let n = t.len();
    if n > 0 && t[n - 1] == ';' {
        match arrow_index(&t) {
            Some(i) => {
                let rest = slice_of(&t, i + 2, n);
                if arrow_index(&rest).is_none() {
                    let from = trim_chars(&slice_of(&t, 0, i));
                    let to = trim_chars(&before_chars(&rest, ';'));
                    DotLine::Edge(string_of(from.as_slice()), string_of(to.as_slice()))
                } else {
                    DotLine::Other
                }
            },
            None => {
                let node = trim_chars(&before_chars(&t, ';'));
                if t[0] != '{' && t[0] != '}' && node.len() > 0 {
                    DotLine::Node(string_of(node.as_slice()))
                } else {
                    DotLine::Other
                }
            },
        }
    } else {
        DotLine::Other
    }
}

/// The keys of an object's members that name development shells.
pub open spec fn dev_shell_keys(m: Seq<(Seq<char>, Seq<char>)>) -> Seq<Seq<char>>
    decreases m.len(),
{
    if m.len() == 0 {
        Seq::empty()
    } else {
        dev_shell_keys(m.drop_last()) + if "devShell."@.is_prefix_of(m.last().0) {
            seq![m.last().0]
        } else {
            Seq::empty()
        }
    }
}

/// The analyzer, with what it knows of the package manager.
pub struct SystemAnalyzer {
    info: SystemInfo,
}

impl SystemAnalyzer {
    pub closed spec fn spec_info(&self) -> SystemInfo {
        self.info
    }

    /// An analyzer for the package manager at `nix_cmd`, which reported
    /// `nix_version`; nothing is known yet of the running system.
    pub fn with_nix(nix_cmd: String, nix_version: String) -> (r: SystemAnalyzer)
        ensures
            r.spec_info() == (SystemInfo {
                nix_version,
                nix_cmd,
                system_flake: None,
                current_system: None,
                store_path: None,
            }),
    {
        SystemAnalyzer {
            info: SystemInfo {
                nix_version,
                nix_cmd,
                system_flake: None,
                current_system: None,
                store_path: None,
            },
        }
    }

    /// What the analyzer knows of the package manager.
    pub fn info(&self) -> (r: &SystemInfo)
        ensures
            *r == self.spec_info(),
    {
        &self.info
    }

    /// The command that runs the package manager.
    pub fn nix_cmd(&self) -> (r: &str)
        ensures
            r@ == self.spec_info().nix_cmd@,
    {
        self.info.nix_cmd.as_str()
    }

    /// The system information, completed with the running system and the
    /// store path that the package manager reported.
    pub fn system_info_with(&self, current_system: String, store_path: String) -> (r: SystemInfo)
        ensures
            r.nix_version@ == self.spec_info().nix_version@,
            r.nix_cmd@ == self.spec_info().nix_cmd@,
            opt_view(r.system_flake) == opt_view(self.spec_info().system_flake),
            r.current_system == Some(current_system),
            r.store_path == Some(store_path),
    {
        let system_flake = match &self.info.system_flake {
            Some(s) => Some(s.clone()),
            None => None,
        };
        SystemInfo {
            nix_version: self.info.nix_version.clone(),
            nix_cmd: self.info.nix_cmd.clone(),
            system_flake,
            current_system: Some(current_system),
            store_path: Some(store_path),
        }
    }

    /// What a finished command yields: its output, trimmed, when it
    /// succeeded; otherwise an error with what it wrote to its error stream.
    pub fn command_result(success: bool, stdout: &str, stderr: String) -> (r: Result<
        String,
        SystemAnalyzerError,
    >)
        ensures
            success ==> (r matches Ok(s) && s@ == trim(stdout@)),
            !success ==> (r matches Err(SystemAnalyzerError::NixCommandError(m)) && m == stderr),
    {
        if !success {
            return Err(SystemAnalyzerError::NixCommandError(stderr));
        }
        let t = trim_chars(&chars_of(stdout));
        Ok(string_of(t.as_slice()))
    }

    /// The arguments of the command that evaluates the system's derivation.
    pub fn system_flake_args() -> (r: Vec<String>)
        ensures
            r@.len() == 3,
            r@[0]@ == "eval"@,
            r@[1]@ == "--raw"@,
            r@[2]@ == "nixosConfig.system.build.toplevel.drvPath"@,
    {
        let mut r: Vec<String> = Vec::new();
        r.push(String::from_str("eval"));
        r.push(String::from_str("--raw"));
        r.push(String::from_str("nixosConfig.system.build.toplevel.drvPath"));
        r
    }

    /// The system flake, from the output of the command that
    /// `system_flake_args` describes.
    pub fn get_system_flake(&self, success: bool, stdout: &str, stderr: String) -> (r: Result<
        String,
        SystemAnalyzerError,
    >)
        ensures
            success ==> (r matches Ok(s) && s@ == trim(stdout@)),
            !success ==> (r matches Err(SystemAnalyzerError::NixCommandError(m)) && m == stderr),
    {
        Self::command_result(success, stdout, stderr)
    }

    /// The development shells that a flake's `show --json` output lists: the
    /// keys of its top-level object that start with `devShell.`, in order.
    pub fn get_dev_shells(&self, shells: &str) -> (r: Result<Vec<String>, SystemAnalyzerError>)
        ensures
            match json_error_of(shells@) {
                Some(e) => r matches Err(SystemAnalyzerError::ParseError(m)) && m@ == e,
                None => r matches Ok(v) && strings_view(v@) == match object_members(shells@) {
                    Some(m) => dev_shell_keys(m),
                    None => Seq::empty(),
                },
            },
    {
        if let Some(e) = json_error(shells) {
            return Err(SystemAnalyzerError::ParseError(e));
        }
        let members = match parse_object(shells) {
            Some(m) => m,
            None => {
                let v: Vec<String> = Vec::new();
                assert(strings_view(v@) =~= Seq::<Seq<char>>::empty());
                return Ok(v);
            },
        };
        let ghost pv = pairs_view(members@);
        let mut out: Vec<String> = Vec::new();
        let mut i: usize = 0;
        while i < members.len()
            invariant
                i <= members@.len(),
                pv == pairs_view(members@),
                strings_view(out@) == dev_shell_keys(pv.subrange(0, i as int)),
            decreases members@.len() - i,
        {
            let ghost before_out = out@;
            assert(pv.subrange(0, i + 1).drop_last() =~= pv.subrange(0, i as int));
            if starts_with(members[i].0.as_str(), "devShell.") {
                out.push(members[i].0.clone());
                assert(strings_view(out@) =~= strings_view(before_out) + seq![members@[i as int].0@]);
            } else {
                assert(strings_view(out@) =~= strings_view(before_out) + Seq::<Seq<char>>::empty());
            }
            i = i + 1;
        }
        assert(pv.subrange(0, i as int) =~= pv);
        Ok(out)
    }

    /// The nodes and edges of a DOT graph, line by line, in order.
    pub fn parse_dot_graph(&self, dot_graph: &str) -> (r: Result<
        (Vec<String>, Vec<(String, String)>),
        SystemAnalyzerError,
    >)
        ensures
            r matches Ok((nodes, edges)) && strings_view(nodes@) == dot_nodes(
                lines_of(dot_graph@),
            ) && pairs_view(edges@) == dot_edges(lines_of(dot_graph@)),
    {
        let ls = lines(dot_graph);
        let ghost lv = ls@.map_values(|l: String| l@);
        let mut nodes: Vec<String> = Vec::new();
        let mut edges: Vec<(String, String)> = Vec::new();
        let mut i: usize = 0;
        while i < ls.len()
            invariant
                i <= ls@.len(),
                lv == ls@.map_values(|l: String| l@),
                lv == lines_of(dot_graph@),
                strings_view(nodes@) == dot_nodes(lv.subrange(0, i as int)),
                pairs_view(edges@) == dot_edges(lv.subrange(0, i as int)),
            decreases ls@.len() - i,
        {
            let ghost (n0, e0) = (nodes@, edges@);
            let ghost pre = lv.subrange(0, i + 1);
            assert(pre.drop_last() =~= lv.subrange(0, i as int));
            assert(pre.last() == ls@[i as int]@);
            match read_dot_line(ls[i].as_str()) {
                DotLine::Node(n) => {
                    nodes.push(n);
                    assert(strings_view(nodes@) =~= strings_view(n0) + seq![nodes@.last()@]);
                    assert(pairs_view(edges@) =~= pairs_view(e0) + Seq::<(Seq<char>, Seq<char>)>::empty());
                },
                DotLine::Edge(a, b) => {
                    edges.push((a, b));
                    assert(pairs_view(edges@) =~= pairs_view(e0) + seq![(edges@.last().0@, edges@.last().1@)]);
                    assert(strings_view(nodes@) =~= strings_view(n0) + Seq::<Seq<char>>::empty());
                },
                DotLine::Other => {
                    assert(pairs_view(edges@) =~= pairs_view(e0) + Seq::<(Seq<char>, Seq<char>)>::empty());
                    assert(strings_view(nodes@) =~= strings_view(n0) + Seq::<Seq<char>>::empty());
                },
            }
            i = i + 1;
        }
        assert(lv.subrange(0, i as int) =~= lv);
        Ok((nodes, edges))
    }

    /// What a development flake holds, from its directory and the output of
    /// its `metadata --json` and `show --json` commands (the latter given
    /// twice: as listed outputs, and as the source of its shells).
    pub fn dev_flake_info(&self, path: String, metadata: &str, outputs: &str, shells: &str) -> (r:
        Result<FlakeInfo, SystemAnalyzerError>)
        ensures
            match (string_list_of(metadata@), string_list_of(outputs@), json_error_of(shells@)) {
                (Err(e), _, _) => r matches Err(SystemAnalyzerError::ParseError(m)) && m@ == e,
                (Ok(_), Err(e), _) => r matches Err(SystemAnalyzerError::ParseError(m)) && m@ == e,
                (Ok(_), Ok(_), Some(e)) => r matches Err(SystemAnalyzerError::ParseError(m)) && m@
                    == e,
                (Ok(inputs), Ok(outs), None) => r matches Ok(f) && f.path == path && strings_view(
                    f.locked_inputs@,
                ) == inputs && strings_view(f.outputs@) == outs && strings_view(f.dev_shells@)
                    == match object_members(shells@) {
                    Some(m) => dev_shell_keys(m),
                    None => Seq::empty(),
                },
            },
    {
        let locked_inputs = match decode_string_list(metadata) {
            Ok(v) => v,
            Err(e) => return Err(SystemAnalyzerError::ParseError(e)),
        };
        let outputs = match decode_string_list(outputs) {
            Ok(v) => v,
            Err(e) => return Err(SystemAnalyzerError::ParseError(e)),
        };
        let dev_shells = match self.get_dev_shells(shells) {
            Ok(v) => v,
            Err(e) => return Err(e),
        };
        Ok(FlakeInfo { path, locked_inputs, outputs, dev_shells })
    }

    /// The `format` parameter of a graph request, from the request's
    /// parameters as JSON text: `Some(None)` without parameters or without
    /// that key; `None` when the parameters are not an object whose values
    /// are all strings.
    pub fn graph_format(params: Option<&str>) -> (r: Option<Option<String>>)
        ensures
            params is None ==> (r matches Some(None)),
            params matches Some(p) ==> match object_members(p@) {
                Some(m) => if all_strings(m) {
                    r matches Some(f) && opt_view(f) == match member(m, "format"@) {
                        Some(t) => string_of_json(t),
                        None => None,
                    }
                } else {
                    r is None
                },
                None => r is None,
            },
    {
        let p = match params {
            None => return Some(None),
            Some(p) => p,
        };
        let members = match parse_object(p) {
            Some(m) => m,
            None => return None,
        };
        let ghost pv = pairs_view(members@);
        let mut i: usize = 0;
        while i < members.len()
            invariant
                i <= members@.len(),
                pv == pairs_view(members@),
                params == Some(p),
                object_members(p@) == Some(pv),
                forall|j: int| 0 <= j < i ==> string_of_json(#[trigger] pv[j].1) is Some,
            decreases members@.len() - i,
        {
            if decode_string(members[i].1.as_str()).is_none() {
                assert(string_of_json(pv[i as int].1) is None);
                assert(!all_strings(pv));
                return None;
            }
            i = i + 1;
        }
        match find_member(&members, "format") {
            Some(t) => Some(decode_string(t.as_str())),
            None => Some(None),
        }
    }

    /// Whether a graph is also to be rendered as SVG.
    pub fn wants_svg(output_format: Option<&str>) -> (r: bool)
        ensures
            r == (output_format matches Some(f) && f@ == "svg"@),
    {
        match output_format {
            Some(f) => String::from_str(f) == String::from_str("svg"),
            None => false,
        }
    }

    /// The graph of a flake, from its DOT text and, if it was rendered, its SVG.
    pub fn flake_graph(&self, dot_graph: String, svg_output: Option<String>) -> (r: Result<
        FlakeGraph,
        SystemAnalyzerError,
    >)
        ensures
            r matches Ok(g) && g.dot_graph == dot_graph && g.svg_output == svg_output
                && strings_view(g.nodes@) == dot_nodes(lines_of(dot_graph@)) && pairs_view(
                g.edges@,
            ) == dot_edges(lines_of(dot_graph@)),
    {
        let (nodes, edges) = match self.parse_dot_graph(dot_graph.as_str()) {
            Ok(p) => p,
            Err(e) => return Err(e),
        };
        Ok(FlakeGraph { dot_graph, svg_output, nodes, edges })
    }

    /// The dependency graph; none is computed yet, so it is empty.
    pub fn get_dependency_graph(&self) -> (r: DependencyGraph)
        ensures
            r.nodes@.len() == 0,
            r.edges@.len() == 0,
    {
        DependencyGraph { nodes: Vec::new(), edges: Vec::new() }
    }
}

/// Every member's value is a JSON string.
pub open spec fn all_strings(m: Seq<(Seq<char>, Seq<char>)>) -> bool {
    forall|i: int| 0 <= i < m.len() ==> (#[trigger] string_of_json(m[i].1)) is Some
}

pub open spec fn opt_view(o: Option<String>) -> Option<Seq<char>> {
    match o {
        Some(s) => Some(s@),
        None => None,
    }
}

} // verus!
