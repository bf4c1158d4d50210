//! Parsing source bytes into syntax trees with the tree-sitter grammars.

use crate::language::Language;
use crate::syntax::well_formed;
use crate::syntax::NodeView;
use crate::syntax::SyntaxNode;
use crate::syntax::SyntaxTree;
use vstd::prelude::*;
use vstd::string::StringExecFns;

verus! {

// ---------------------------------------------------------------------------
// Trusted: the tree-sitter parser and its trees
// ---------------------------------------------------------------------------
/// A parsed tree of the tree-sitter library; nothing is known of its inside.
#[verifier::external_type_specification]
#[verifier::external_body]
pub struct ExTree(tree_sitter::Tree);

/// The nodes of a parsed tree in document order: node `i` is the one that a
/// cursor over the tree reaches as descendant `i` of the root.
pub uninterp spec fn tree_nodes(tree: tree_sitter::Tree) -> Seq<NodeView>;

/// Whether `Parser::set_language` accepts the grammar of a language.
pub uninterp spec fn grammar_loads(language: Language) -> bool;

/// What `Parser::parse` returns for a source, once the grammar of the
/// language is assigned to a new parser: the nodes of the tree, or nothing.
pub uninterp spec fn parsed_nodes(language: Language, source: Seq<u8>) -> Option<Seq<NodeView>>;

/// `Parser::set_language` on a new parser, with the grammar of `language`,
/// then `Parser::parse` on the whole source, with no earlier tree. The first
/// fails where the grammar's version does not fit the library; the second
/// returns a tree or nothing. Both results depend on the language and the
/// bytes alone, and are only named.
#[verifier::external_body]
fn parse_source(language: Language, source: &[u8]) -> (r: Result<Option<tree_sitter::Tree>, String>)
    ensures
        r is Ok <==> grammar_loads(language),
        match r {
            Ok(Some(tree)) => parsed_nodes(language, source@) == Some(tree_nodes(tree)),
            Ok(None) => parsed_nodes(language, source@) is None,
            Err(_) => true,
        },
{
    let grammar: tree_sitter::Language = match language {
        Language::Python => tree_sitter_python::LANGUAGE.into(),
        Language::Rust => tree_sitter_rust::LANGUAGE.into(),
        Language::JavaScript => tree_sitter_javascript::LANGUAGE.into(),
        Language::TypeScript => tree_sitter_typescript::LANGUAGE_TYPESCRIPT.into(),
        Language::Go => tree_sitter_go::LANGUAGE.into(),
        Language::Cpp => tree_sitter_cpp::LANGUAGE.into(),
    };
    let mut parser = tree_sitter::Parser::new();
    match parser.set_language(&grammar) {
        Ok(()) => Ok(parser.parse(source, None)),
        Err(e) => Err(e.to_string()),
    }
}

/// `Node::descendant_count` of the root: the number of nodes of the tree,
/// the root included.
#[verifier::external_body]
fn tree_node_count(tree: &tree_sitter::Tree) -> (n: usize)
    ensures
        n == tree_nodes(*tree).len(),
{
    tree.root_node().descendant_count()
}

/// `TreeCursor::goto_descendant` from the root, then the cursor's depth and
/// its node's kind, byte range and rows.
#[verifier::external_body]
fn tree_node_at(tree: &tree_sitter::Tree, index: usize) -> (node: SyntaxNode)
    requires
        index < tree_nodes(*tree).len(),
    ensures
        node@ == tree_nodes(*tree)[index as int],
{
    let mut cursor = tree.walk();
    cursor.goto_descendant(index);
    let node = cursor.node();
    SyntaxNode {
        kind: node.kind().to_string(),
        depth: cursor.depth() as usize,
        start_byte: node.start_byte(),
        end_byte: node.end_byte(),
        start_row: node.start_position().row,
        end_row: node.end_position().row,
    }
}

// ---------------------------------------------------------------------------
// Errors
// ---------------------------------------------------------------------------
/// Why a source could not be parsed.
#[derive(Debug)]
pub enum ParserError {
    /// The grammar could not be assigned to the parser.
    SetLanguage(String),
    /// The parser returned no tree.
    Parse(String),
    /// No grammar is known for the language.
    UnsupportedLanguage(String),
}

/// The message of a parser error.
pub open spec fn parser_error_message(e: ParserError) -> Seq<char> {
    match e {
        ParserError::SetLanguage(m) => "Failed to set language for parser: "@ + m@,
        ParserError::Parse(m) => "Failed to parse file: "@ + m@,
        ParserError::UnsupportedLanguage(m) => "Unsupported language: "@ + m@,
    }
}

impl ParserError {
    /// The error's message.
    pub fn to_string(&self) -> (r: String)
        ensures
            r@ == parser_error_message(*self),
    {
        match self {
            ParserError::SetLanguage(m) => String::from_str(
                "Failed to set language for parser: ",
            ).concat(m.as_str()),
            ParserError::Parse(m) => String::from_str("Failed to parse file: ").concat(m.as_str()),
            ParserError::UnsupportedLanguage(m) => String::from_str(
                "Unsupported language: ",
            ).concat(m.as_str()),
        }
    }
}

// ---------------------------------------------------------------------------
// The pool
// ---------------------------------------------------------------------------
/// Entry point to the parsers. Every call works on a parser of its own, so
/// no parser is ever shared between threads.
pub struct ParserPool;

impl ParserPool {
    /// Checks that a parser for the given language can be set up.
    pub fn get_parser(language: Language) -> (r: Result<(), ParserError>)
        ensures
            r is Ok <==> grammar_loads(language),
            r is Err ==> r->Err_0 is SetLanguage,
    {
        let nothing: Vec<u8> = Vec::new();
        match parse_source(language, nothing.as_slice()) {
            Ok(_) => Ok(()),
            Err(message) => Err(ParserError::SetLanguage(message)),
        }
    }

    /// Parses source code with the parser of its language.
    pub fn parse(language: Language, source: &[u8]) -> (r: Result<tree_sitter::Tree, ParserError>)
        ensures
            match r {
                Ok(tree) => grammar_loads(language) && parsed_nodes(language, source@) == Some(
                    tree_nodes(tree),
                ),
                Err(ParserError::SetLanguage(_)) => !grammar_loads(language),
                Err(ParserError::Parse(message)) => grammar_loads(language) && parsed_nodes(
                    language,
                    source@,
                ) is None && message@ == "Parser returned None"@,
                Err(ParserError::UnsupportedLanguage(_)) => false,
            },
    {
        match parse_source(language, source) {
            Err(message) => Err(ParserError::SetLanguage(message)),
            Ok(Some(tree)) => Ok(tree),
            Ok(None) => Err(ParserError::Parse(String::from_str("Parser returned None"))),
        }
    }

    /// Reads the nodes of a parsed tree into a [`SyntaxTree`]; nothing if
    /// they do not form one.
    pub fn syntax_tree(tree: &tree_sitter::Tree) -> (r: Option<SyntaxTree>)
        ensures
            r is Some <==> well_formed(tree_nodes(*tree)),
            r is Some ==> r->0@ == tree_nodes(*tree),
    {
        let n = tree_node_count(tree);
        let mut nodes: Vec<SyntaxNode> = Vec::new();
        let mut i: usize = 0;
        while i < n
            invariant
                i <= n,
                n == tree_nodes(*tree).len(),
                nodes.deep_view() == tree_nodes(*tree).take(i as int),
            decreases n - i,
        {
            let node = tree_node_at(tree, i);
            proof {
                assert(nodes.deep_view().push(node@) == tree_nodes(*tree).take(i + 1));
            }
            nodes.push(node);
            assert(nodes.deep_view() == tree_nodes(*tree).take(i + 1));
            i += 1;
        }
        assert(tree_nodes(*tree).take(n as int) == tree_nodes(*tree));
        SyntaxTree::from_nodes(nodes)
    }
}

} // verus!
