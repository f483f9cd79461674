//! The syntax tree that the parser produces and the evaluator reads.
//!
//! A [`Node`] owns its children; its mathematical value is a [`Syntax`],
//! which every contract in this crate speaks of through `@`.

use vstd::prelude::*;

verus! {

/// The mathematical value of a syntax tree: texts are sequences of
/// characters, children are sequences of values.
pub enum Syntax {
    /// A sequence of statements, in source order.
    Compound(Seq<Syntax>),
    /// A variable assignment: the variable, then the data.
    Define(Box<Syntax>, Box<Syntax>),
    /// A comment; the text after `#`.
    Comment(Seq<char>),
    /// A command: its name, then its arguments.
    Command(Box<Syntax>, Seq<Syntax>),
    /// The stages of a pipeline, left to right.
    Pipeline(Seq<Syntax>),
    RedirectInput(Box<Syntax>),
    RedirectOutput(Box<Syntax>),
    RedirectOutputAppend(Box<Syntax>),
    RedirectErrorOutput(Box<Syntax>),
    RedirectErrorOutputAppend(Box<Syntax>),
    /// A command, then its redirection specifiers.
    Redirect(Box<Syntax>, Seq<Syntax>),
    /// A script to run; the file's name.
    ExecScript(Box<Syntax>),
    /// A literal token, quotes already stripped.
    Identifier(Seq<char>),
    /// A variable lookup; the name looked up.
    Reference(Box<Syntax>),
}

/// Any expression of the shell language.
#[derive(Debug, PartialEq)]
pub enum Node {
    CompoundStatement(CompoundStatement),
    Define(Box<Define>),
    Comment(Comment),
    CommandStatement(Box<CommandStatement>),
    Pipeline(Pipeline),
    RedirectInput(Box<RedirectInput>),
    RedirectOutput(Box<RedirectOutput>),
    RedirectOutputAppend(Box<RedirectOutputAppend>),
    RedirectErrorOutput(Box<RedirectErrorOutput>),
    RedirectErrorOutputAppend(Box<RedirectErrorOutputAppend>),
    Redirect(Box<Redirect>),
    ExecScript(Box<ExecScript>),
    Identifier(Identifier),
    Reference(Box<Reference>),
}

/// A sequence of statements.
#[derive(Debug, PartialEq)]
pub struct CompoundStatement {
    stmt: Vec<Node>,
}

/// A variable assignment.
#[derive(Debug, PartialEq)]
pub struct Define {
    var: Node,
    data: Node,
}

/// A command with its arguments: one stage of a pipeline.
#[derive(Debug, PartialEq)]
pub struct CommandStatement(Node, Vec<Node>);

/// Two or more commands chained by `|`.
#[derive(Debug, PartialEq)]
pub struct Pipeline(Vec<Node>);

/// `< file`: the file becomes the standard input.
#[derive(Debug, PartialEq)]
pub struct RedirectInput {
    destination: Node,
}

/// `> file`: the file is created or truncated and receives the standard output.
#[derive(Debug, PartialEq)]
pub struct RedirectOutput {
    destination: Node,
}

/// `>> file`: the standard output is appended to the file.
#[derive(Debug, PartialEq)]
pub struct RedirectOutputAppend {
    destination: Node,
}

/// `2> file`: the file is created or truncated and receives the error output.
#[derive(Debug, PartialEq)]
pub struct RedirectErrorOutput {
    destination: Node,
}

/// `2>> file`: the error output is appended to the file.
#[derive(Debug, PartialEq)]
pub struct RedirectErrorOutputAppend {
    destination: Node,
}

/// A command with one or more redirection specifiers.
#[derive(Debug, PartialEq)]
pub struct Redirect {
    command: Node,
    destination: Vec<Node>,
}

/// A literal token.
#[derive(Debug, PartialEq)]
pub struct Identifier(String);

/// A one-line comment.
#[derive(Debug, PartialEq)]
pub struct Comment {
    comment: String,
}

/// A request to run a file's contents as shell text.
#[derive(Debug, PartialEq)]
pub struct ExecScript {
    exec_script: Node,
}

/// A variable lookup by name.
#[derive(Debug, PartialEq)]
pub struct Reference {
    reference: Node,
}

/// The values of a sequence of nodes, in order.
pub open spec fn views(nodes: Seq<Node>) -> Seq<Syntax>
    decreases nodes,
{
    Seq::new(
        nodes.len(),
        |i: int|
            if 0 <= i < nodes.len() {
                nodes[i].view()
            } else {
                Syntax::Compound(Seq::empty())
            },
    )
}

/// What [`Node::eval`] yields, on values: the statements of a compound
/// statement, the stages of a pipeline, for a command whatever its name
/// yields, and nothing for any other node.
pub open spec fn eval_spec(s: Syntax) -> Seq<Syntax>
    decreases s,
{
    match s {
        Syntax::Compound(items) => items,
        Syntax::Command(command, _) => eval_spec(*command),
        Syntax::Pipeline(stages) => stages,
        _ => Seq::empty(),
    }
}

/// Each kind of node has a value of its own kind.
pub open spec fn kinds_agree(n: Node) -> bool {
    match n {
        Node::CompoundStatement(_) => n@ is Compound,
        Node::Define(_) => n@ is Define,
        Node::Comment(_) => n@ is Comment,
        Node::CommandStatement(_) => n@ is Command,
        Node::Pipeline(_) => n@ is Pipeline,
        Node::RedirectInput(_) => n@ is RedirectInput,
        Node::RedirectOutput(_) => n@ is RedirectOutput,
        Node::RedirectOutputAppend(_) => n@ is RedirectOutputAppend,
        Node::RedirectErrorOutput(_) => n@ is RedirectErrorOutput,
        Node::RedirectErrorOutputAppend(_) => n@ is RedirectErrorOutputAppend,
        Node::Redirect(_) => n@ is Redirect,
        Node::ExecScript(_) => n@ is ExecScript,
        Node::Identifier(_) => n@ is Identifier,
        Node::Reference(_) => n@ is Reference,
    }
}

/// The value of a node is of the node's kind.
pub proof fn lemma_kinds(n: Node)
    ensures
        kinds_agree(n),
{
}

/// What [`Node::get_lhs`] yields, on values.
pub open spec fn lhs_spec(s: Syntax) -> Syntax {
    match s {
        Syntax::Command(command, _) => *command,
        _ => Syntax::Identifier(Seq::empty()),
    }
}

/// What [`Node::get_rhs`] yields, on values.
pub open spec fn rhs_spec(s: Syntax) -> Seq<Syntax> {
    match s {
        Syntax::Command(_, args) => args,
        _ => Seq::empty(),
    }
}

/// A copy of `nodes`, node by node.
pub fn clone_nodes(nodes: &Vec<Node>) -> (r: Vec<Node>)
    ensures
        views(r@) == views(nodes@),
    decreases nodes,
{
    let mut r: Vec<Node> = Vec::new();
    let mut i: usize = 0;
    while i < nodes.len()
        invariant
            i <= nodes.len(),
            r.len() == i,
            forall|j: int| 0 <= j < i ==> r@[j].view() == nodes@[j].view(),
        decreases nodes.len() - i,
    {
        let n = nodes[i].get_node();
        r.push(n);
        i = i + 1;
    }
    assert(views(r@) =~= views(nodes@));
    r
}

impl Node {
    pub open spec fn view(&self) -> Syntax
        decreases self,
    {
        match self {
            Node::CompoundStatement(c) => c.view(),
            Node::Define(d) => d.view(),
            Node::Comment(c) => c.view(),
            Node::CommandStatement(c) => c.view(),
            Node::Pipeline(p) => p.view(),
            Node::RedirectInput(r) => r.view(),
            Node::RedirectOutput(r) => r.view(),
            Node::RedirectOutputAppend(r) => r.view(),
            Node::RedirectErrorOutput(r) => r.view(),
            Node::RedirectErrorOutputAppend(r) => r.view(),
            Node::Redirect(r) => r.view(),
            Node::ExecScript(e) => e.view(),
            Node::Identifier(i) => i.view(),
            Node::Reference(r) => r.view(),
        }
    }

    /// What this node holds below it: the statements of a compound
    /// statement, the stages of a pipeline, for a command whatever its name
    /// holds, and nothing for any other node.
    pub fn eval(&self) -> (r: Vec<Node>)
        ensures
            views(r@) == eval_spec(self@),
        decreases self,
    {
        match self {
            Node::CompoundStatement(compound_statement) => compound_statement.eval(),
            Node::CommandStatement(command) => command.0.eval(),
            Node::Pipeline(pipeline) => pipeline.get_commands(),
            _ => {
                let r: Vec<Node> = Vec::new();
                assert(views(r@) =~= Seq::<Syntax>::empty());
                r
            },
        }
    }

    /// The name of a command; for any other node the empty identifier.
    pub fn get_lhs(&self) -> (r: Node)
        ensures
            r@ == lhs_spec(self@),
    {
        match self {
            Node::CommandStatement(command) => command.get_command(),
            _ => Node::default(),
        }
    }

    /// The arguments of a command; for any other node nothing.
    pub fn get_rhs(&self) -> (r: Vec<Node>)
        ensures
            views(r@) == rhs_spec(self@),
    {
        match self {
            Node::CommandStatement(command) => command.get_sub_command(),
            _ => {
                let r: Vec<Node> = Vec::new();
                assert(views(r@) =~= Seq::<Syntax>::empty());
                r
            },
        }
    }

    /// A copy of this node and of everything below it.
    pub fn get_node(&self) -> (r: Node)
        ensures
            r@ == self@,
        decreases self,
    {
        match self {
            Node::CompoundStatement(c) => Node::CompoundStatement(
                CompoundStatement { stmt: clone_nodes(&c.stmt) },
            ),
            Node::Define(d) => Node::Define(
                Box::new(Define { var: d.var.get_node(), data: d.data.get_node() }),
            ),
            Node::Comment(c) => Node::Comment(Comment { comment: c.comment.clone() }),
            Node::CommandStatement(c) => Node::CommandStatement(
                Box::new(CommandStatement(c.0.get_node(), clone_nodes(&c.1))),
            ),
            Node::Pipeline(p) => Node::Pipeline(Pipeline(clone_nodes(&p.0))),
            Node::RedirectInput(r) => Node::RedirectInput(
                Box::new(RedirectInput { destination: r.destination.get_node() }),
            ),
            Node::RedirectOutput(r) => Node::RedirectOutput(
                Box::new(RedirectOutput { destination: r.destination.get_node() }),
            ),
            Node::RedirectOutputAppend(r) => Node::RedirectOutputAppend(
                Box::new(RedirectOutputAppend { destination: r.destination.get_node() }),
            ),
            Node::RedirectErrorOutput(r) => Node::RedirectErrorOutput(
                Box::new(RedirectErrorOutput { destination: r.destination.get_node() }),
            ),
            Node::RedirectErrorOutputAppend(r) => Node::RedirectErrorOutputAppend(
                Box::new(RedirectErrorOutputAppend { destination: r.destination.get_node() }),
            ),
            Node::Redirect(r) => Node::Redirect(
                Box::new(
                    Redirect {
                        command: r.command.get_node(),
                        destination: clone_nodes(&r.destination),
                    },
                ),
            ),
            Node::ExecScript(e) => Node::ExecScript(
                Box::new(ExecScript { exec_script: e.exec_script.get_node() }),
            ),
            Node::Identifier(i) => Node::Identifier(Identifier(i.0.clone())),
            Node::Reference(r) => Node::Reference(
                Box::new(Reference { reference: r.reference.get_node() }),
            ),
        }
    }
}

impl CompoundStatement {
    /// The compound statement of the statements `val`.
    pub fn new(val: Vec<Node>) -> (r: CompoundStatement)
        ensures
            r@ == Syntax::Compound(views(val@)),
    {
        CompoundStatement { stmt: val }
    }

    /// The compound statement of the one statement `val`.
    pub fn from(val: Node) -> (r: CompoundStatement)
        ensures
            r@ == Syntax::Compound(seq![val@]),
    {
        let mut stmt: Vec<Node> = Vec::new();
        stmt.push(val);
        assert(views(stmt@) =~= seq![val@]);
        CompoundStatement { stmt }
    }

    /// The compound statement of `val` followed by the statements `val2`.
    pub fn start_node(val: Node, val2: Vec<Node>) -> (r: CompoundStatement)
        ensures
            r@ == Syntax::Compound(seq![val@] + views(val2@)),
    {
        let mut stmt: Vec<Node> = val2;
        stmt.insert(0, val);
        assert(views(stmt@) =~= seq![val@] + views(val2@));
        CompoundStatement { stmt }
    }

    /// A copy of the statements, in order.
    pub fn eval(&self) -> (r: Vec<Node>)
        ensures
            self@ == Syntax::Compound(views(r@)),
    {
        clone_nodes(&self.stmt)
    }

    pub closed spec fn view(&self) -> Syntax
        decreases self,
    {
        Syntax::Compound(views(self.stmt@))
    }
}

impl Define {
    /// The assignment of `data` to `var`.
    pub fn new(var: Node, data: Node) -> (r: Define)
        ensures
            r@ == Syntax::Define(Box::new(var@), Box::new(data@)),
    {
        Define { var, data }
    }

    /// A copy of the variable.
    pub fn get_var(&self) -> (r: Node)
        ensures
            self@ matches Syntax::Define(var, _) && r@ == *var,
    {
        self.var.get_node()
    }

    /// A copy of the data.
    pub fn get_data(&self) -> (r: Node)
        ensures
            self@ matches Syntax::Define(_, data) && r@ == *data,
    {
        self.data.get_node()
    }

    pub closed spec fn view(&self) -> Syntax
        decreases self,
    {
        Syntax::Define(Box::new(self.var.view()), Box::new(self.data.view()))
    }
}

impl CommandStatement {
    /// The command `val` with the arguments `val2`.
    pub fn new(val: Node, val2: Vec<Node>) -> (r: CommandStatement)
        ensures
            r@ == Syntax::Command(Box::new(val@), views(val2@)),
    {
        CommandStatement(val, val2)
    }

    /// A copy of the command's name.
    pub fn get_command(&self) -> (r: Node)
        ensures
            self@ matches Syntax::Command(command, _) && r@ == *command,
    {
        self.0.get_node()
    }

    /// A copy of the command's arguments, in order.
    pub fn get_sub_command(&self) -> (r: Vec<Node>)
        ensures
            self@ matches Syntax::Command(_, args) && views(r@) == args,
    {
        clone_nodes(&self.1)
    }

    pub closed spec fn view(&self) -> Syntax
        decreases self,
    {
        Syntax::Command(Box::new(self.0.view()), views(self.1@))
    }
}

impl Pipeline {
    /// The pipeline of the stages `val`.
    pub fn new(val: Vec<Node>) -> (r: Pipeline)
        ensures
            r@ == Syntax::Pipeline(views(val@)),
    {
        Pipeline(val)
    }

    /// The pipeline of the one stage `val`.
    pub fn from(val: Node) -> (r: Pipeline)
        ensures
            r@ == Syntax::Pipeline(seq![val@]),
    {
        let mut stages: Vec<Node> = Vec::new();
        stages.push(val);
        assert(views(stages@) =~= seq![val@]);
        Pipeline(stages)
    }

    /// A copy of the stages, in order.
    pub fn get_commands(&self) -> (r: Vec<Node>)
        ensures
            self@ == Syntax::Pipeline(views(r@)),
    {
        clone_nodes(&self.0)
    }

    pub closed spec fn view(&self) -> Syntax
        decreases self,
    {
        Syntax::Pipeline(views(self.0@))
    }
}

impl RedirectInput {
    /// The redirection of the standard input, with `destination` as the file.
    pub fn new(destination: Node) -> (r: RedirectInput)
        ensures
            r@ == Syntax::RedirectInput(Box::new(destination@)),
    {
        RedirectInput { destination }
    }

    /// A copy of the destination.
    pub fn get_destination(&self) -> (r: Node)
        ensures
            self@ == Syntax::RedirectInput(Box::new(r@)),
    {
        self.destination.get_node()
    }

    pub closed spec fn view(&self) -> Syntax
        decreases self,
    {
        Syntax::RedirectInput(Box::new(self.destination.view()))
    }
}

impl RedirectOutput {
    /// The redirection of the standard output, overwriting, with `destination` as the file.
    pub fn new(destination: Node) -> (r: RedirectOutput)
        ensures
            r@ == Syntax::RedirectOutput(Box::new(destination@)),
    {
        RedirectOutput { destination }
    }

    /// A copy of the destination.
    pub fn get_destination(&self) -> (r: Node)
        ensures
            self@ == Syntax::RedirectOutput(Box::new(r@)),
    {
        self.destination.get_node()
    }

    pub closed spec fn view(&self) -> Syntax
        decreases self,
    {
        Syntax::RedirectOutput(Box::new(self.destination.view()))
    }
}

impl RedirectOutputAppend {
    /// The redirection of the standard output, appending, with `destination` as the file.
    pub fn new(destination: Node) -> (r: RedirectOutputAppend)
        ensures
            r@ == Syntax::RedirectOutputAppend(Box::new(destination@)),
    {
        RedirectOutputAppend { destination }
    }

    /// A copy of the destination.
    pub fn get_destination(&self) -> (r: Node)
        ensures
            self@ == Syntax::RedirectOutputAppend(Box::new(r@)),
    {
        self.destination.get_node()
    }

    pub closed spec fn view(&self) -> Syntax
        decreases self,
    {
        Syntax::RedirectOutputAppend(Box::new(self.destination.view()))
    }
}

impl RedirectErrorOutput {
    /// The redirection of the error output, overwriting, with `destination` as the file.
    pub fn new(destination: Node) -> (r: RedirectErrorOutput)
        ensures
            r@ == Syntax::RedirectErrorOutput(Box::new(destination@)),
    {
        RedirectErrorOutput { destination }
    }

    /// A copy of the destination.
    pub fn get_destination(&self) -> (r: Node)
        ensures
            self@ == Syntax::RedirectErrorOutput(Box::new(r@)),
    {
        self.destination.get_node()
    }

    pub closed spec fn view(&self) -> Syntax
        decreases self,
    {
        Syntax::RedirectErrorOutput(Box::new(self.destination.view()))
    }
}

impl RedirectErrorOutputAppend {
    /// The redirection of the error output, appending, with `destination` as the file.
    pub fn new(destination: Node) -> (r: RedirectErrorOutputAppend)
        ensures
            r@ == Syntax::RedirectErrorOutputAppend(Box::new(destination@)),
    {
        RedirectErrorOutputAppend { destination }
    }

    /// A copy of the destination.
    pub fn get_destination(&self) -> (r: Node)
        ensures
            self@ == Syntax::RedirectErrorOutputAppend(Box::new(r@)),
    {
        self.destination.get_node()
    }

    pub closed spec fn view(&self) -> Syntax
        decreases self,
    {
        Syntax::RedirectErrorOutputAppend(Box::new(self.destination.view()))
    }
}

impl Redirect {
    /// The command `command` with the redirection specifiers `destination`.
    pub fn new(command: Node, destination: Vec<Node>) -> (r: Redirect)
        ensures
            r@ == Syntax::Redirect(Box::new(command@), views(destination@)),
    {
        Redirect { command, destination }
    }

    /// A copy of the redirection specifiers, in order.
    pub fn get_destination(&self) -> (r: Vec<Node>)
        ensures
            self@ matches Syntax::Redirect(_, specifiers) && views(r@) == specifiers,
    {
        clone_nodes(&self.destination)
    }

    /// A copy of the command.
    pub fn get_command(&self) -> (r: Node)
        ensures
            self@ matches Syntax::Redirect(command, _) && r@ == *command,
    {
        self.command.get_node()
    }

    pub closed spec fn view(&self) -> Syntax
        decreases self,
    {
        Syntax::Redirect(Box::new(self.command.view()), views(self.destination@))
    }
}

impl ExecScript {
    /// The request to run the file named by `val`.
    pub fn new(val: Node) -> (r: ExecScript)
        ensures
            r@ == Syntax::ExecScript(Box::new(val@)),
    {
        ExecScript { exec_script: val }
    }

    /// A copy of the file's name.
    pub fn get_filename(&self) -> (r: Node)
        ensures
            self@ == Syntax::ExecScript(Box::new(r@)),
    {
        self.exec_script.get_node()
    }

    pub closed spec fn view(&self) -> Syntax
        decreases self,
    {
        Syntax::ExecScript(Box::new(self.exec_script.view()))
    }
}

impl Reference {
    /// The lookup of the variable named by `val`.
    pub fn new(val: Node) -> (r: Reference)
        ensures
            r@ == Syntax::Reference(Box::new(val@)),
    {
        Reference { reference: val }
    }

    /// A copy of the variable's name.
    pub fn get_reference(&self) -> (r: Node)
        ensures
            self@ == Syntax::Reference(Box::new(r@)),
    {
        self.reference.get_node()
    }

    pub closed spec fn view(&self) -> Syntax
        decreases self,
    {
        Syntax::Reference(Box::new(self.reference.view()))
    }
}

impl Identifier {
    /// The literal token `val`.
    pub fn new(val: String) -> (r: Identifier)
        ensures
            r@ == Syntax::Identifier(val@),
    {
        Identifier(val)
    }

    /// The token's text.
    pub fn eval(&self) -> (r: String)
        ensures
            self@ == Syntax::Identifier(r@),
    {
        self.0.clone()
    }

    pub closed spec fn view(&self) -> Syntax {
        Syntax::Identifier(self.0@)
    }
}

impl Comment {
    /// The comment with the text `val`.
    pub fn new(val: String) -> (r: Comment)
        ensures
            r@ == Syntax::Comment(val@),
    {
        Comment { comment: val }
    }

    /// The comment's text.
    pub fn get_comment(&self) -> (r: String)
        ensures
            self@ == Syntax::Comment(r@),
    {
        self.comment.clone()
    }

    pub closed spec fn view(&self) -> Syntax {
        Syntax::Comment(self.comment@)
    }
}

impl Default for Node {
    /// The empty identifier.
    fn default() -> (r: Node)
        ensures
            r@ == Syntax::Identifier(Seq::empty()),
    {
        Node::Identifier(Identifier(String::new()))
    }
}

impl Clone for Node {
    fn clone(&self) -> (r: Node)
        ensures
            r@ == self@,
    {
        self.get_node()
    }
}

} // verus!
