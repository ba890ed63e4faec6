//! Parsed submissions as the fingerprint sees them: syntax trees, the tags
//! and tokens they yield, and extracting the token stream in source order.
use vstd::prelude::*;

verus! {

broadcast use vstd::string::group_string_axioms;

/// A Rust expression, as far as the fingerprint looks at it.
pub enum RustExpr {
    Call,
    MethodCall,
    Path,
    Lit,
    Assign,
    /// An `if`, with the statements of its then-branch.
    If(Vec<RustStmt>),
    ForLoop,
    While,
    Other,
}

/// A statement of a Rust block.
pub enum RustStmt {
    Expr(RustExpr),
    Item(RustItem),
    Other,
}

/// A Rust item.
pub enum RustItem {
    /// A function, with the statements of its body.
    Fn(Vec<RustStmt>),
    Struct,
    Enum,
    Impl,
    Other,
}

/// A TypeScript or JavaScript expression, as far as the fingerprint looks at it.
pub enum ScriptExpr {
    Call,
    /// An identifier, with its name.
    Ident(String),
    Lit,
    Assign,
    Other,
}

/// A TypeScript or JavaScript statement.
pub enum ScriptStmt {
    Expr(ScriptExpr),
    Block(Vec<ScriptStmt>),
    /// An `if`, with its test.
    If(ScriptExpr),
    For,
    While,
    Other,
}

/// A top-level item of a TypeScript or JavaScript module.
pub enum ScriptItem {
    Stmt(ScriptStmt),
    ModuleDecl,
}

/// A parsed submission.
pub enum SyntaxTree {
    Rust(Vec<RustItem>),
    Script(Vec<ScriptItem>),
}

/// The constructs a fingerprint counts.
#[derive(PartialEq, Eq, Structural, Clone, Copy, Debug)]
pub enum Tag {
    Fn,
    Struct,
    Enum,
    Impl,
    If,
    For,
    While,
    Block,
    ExprStmt,
    Call,
    MethodCall,
    Path,
    Ident,
    Literal,
    Assign,
    ModuleDecl,
    OtherStmt,
    OtherExpr,
    OtherItem,
}

/// The number of tags.
pub const TAG_COUNT: usize = 19;

/// The name of a tag.
pub open spec fn tag_text(t: Tag) -> Seq<char> {
    match t {
        Tag::Fn => "fn"@,
        Tag::Struct => "struct"@,
        Tag::Enum => "enum"@,
        Tag::Impl => "impl"@,
        Tag::If => "if"@,
        Tag::For => "for"@,
        Tag::While => "while"@,
        Tag::Block => "block"@,
        Tag::ExprStmt => "expr_stmt"@,
        Tag::Call => "call"@,
        Tag::MethodCall => "method_call"@,
        Tag::Path => "path"@,
        Tag::Ident => "ident"@,
        Tag::Literal => "literal"@,
        Tag::Assign => "assign"@,
        Tag::ModuleDecl => "module_decl"@,
        Tag::OtherStmt => "other_stmt"@,
        Tag::OtherExpr => "other_expr"@,
        Tag::OtherItem => "other_item"@,
    }
}

/// The position of a tag in a histogram.
pub open spec fn tag_index(t: Tag) -> int {
    match t {
        Tag::Fn => 0,
        Tag::Struct => 1,
        Tag::Enum => 2,
        Tag::Impl => 3,
        Tag::If => 4,
        Tag::For => 5,
        Tag::While => 6,
        Tag::Block => 7,
        Tag::ExprStmt => 8,
        Tag::Call => 9,
        Tag::MethodCall => 10,
        Tag::Path => 11,
        Tag::Ident => 12,
        Tag::Literal => 13,
        Tag::Assign => 14,
        Tag::ModuleDecl => 15,
        Tag::OtherStmt => 16,
        Tag::OtherExpr => 17,
        Tag::OtherItem => 18,
    }
}

impl Tag {
    /// The name of the tag.
    pub fn name(&self) -> (s: &'static str)
        ensures
            s@ == tag_text(*self),
    {
        match self {
            Tag::Fn => "fn",
            Tag::Struct => "struct",
            Tag::Enum => "enum",
            Tag::Impl => "impl",
            Tag::If => "if",
            Tag::For => "for",
            Tag::While => "while",
            Tag::Block => "block",
            Tag::ExprStmt => "expr_stmt",
            Tag::Call => "call",
            Tag::MethodCall => "method_call",
            Tag::Path => "path",
            Tag::Ident => "ident",
            Tag::Literal => "literal",
            Tag::Assign => "assign",
            Tag::ModuleDecl => "module_decl",
            Tag::OtherStmt => "other_stmt",
            Tag::OtherExpr => "other_expr",
            Tag::OtherItem => "other_item",
        }
    }

    /// The position of the tag in a histogram.
    pub fn index(&self) -> (i: usize)
        ensures
            i == tag_index(*self),
            i < TAG_COUNT,
    {
        match self {
            Tag::Fn => 0,
            Tag::Struct => 1,
            Tag::Enum => 2,
            Tag::Impl => 3,
            Tag::If => 4,
            Tag::For => 5,
            Tag::While => 6,
            Tag::Block => 7,
            Tag::ExprStmt => 8,
            Tag::Call => 9,
            Tag::MethodCall => 10,
            Tag::Path => 11,
            Tag::Ident => 12,
            Tag::Literal => 13,
            Tag::Assign => 14,
            Tag::ModuleDecl => 15,
            Tag::OtherStmt => 16,
            Tag::OtherExpr => 17,
            Tag::OtherItem => 18,
        }
    }
}

/// One token of the stream: a tag, or an identifier with its name.
pub enum Token {
    Tag(Tag),
    Ident(String),
}

/// The tag that a token counts under.
pub open spec fn token_tag(t: Token) -> Tag {
    match t {
        Token::Tag(g) => g,
        Token::Ident(_) => Tag::Ident,
    }
}

/// The text of a token: the tag's name, or `ident_` and the identifier.
pub open spec fn token_text(t: Token) -> Seq<char> {
    match t {
        Token::Tag(g) => tag_text(g),
        Token::Ident(name) => "ident_"@ + name@,
    }
}

/// The tokens of a Rust expression.
pub open spec fn rust_expr_tokens(e: RustExpr) -> Seq<Token>
    decreases e,
{
    match e {
        RustExpr::Call => seq![Token::Tag(Tag::Call)],
        RustExpr::MethodCall => seq![Token::Tag(Tag::MethodCall)],
        RustExpr::Path => seq![Token::Tag(Tag::Path)],
        RustExpr::Lit => seq![Token::Tag(Tag::Literal)],
        RustExpr::Assign => seq![Token::Tag(Tag::Assign)],
        RustExpr::If(body) => seq![Token::Tag(Tag::If)] + rust_block_tokens(body@),
        RustExpr::ForLoop => seq![Token::Tag(Tag::For)],
        RustExpr::While => seq![Token::Tag(Tag::While)],
        RustExpr::Other => seq![Token::Tag(Tag::OtherExpr)],
    }
}

/// The tokens of a Rust statement.
pub open spec fn rust_stmt_tokens(s: RustStmt) -> Seq<Token>
    decreases s,
{
    match s {
        RustStmt::Expr(e) => rust_expr_tokens(e),
        RustStmt::Item(i) => rust_item_tokens(i),
        RustStmt::Other => seq![Token::Tag(Tag::OtherStmt)],
    }
}

/// The tokens of the statements of a Rust block, in order.
pub open spec fn rust_block_tokens(b: Seq<RustStmt>) -> Seq<Token>
    decreases b,
{
    if b.len() == 0 {
        Seq::empty()
    } else {
        rust_block_tokens(b.drop_last()) + rust_stmt_tokens(b.last())
    }
}

/// The tokens of a Rust item.
pub open spec fn rust_item_tokens(i: RustItem) -> Seq<Token>
    decreases i,
{
    match i {
        RustItem::Fn(body) => seq![Token::Tag(Tag::Fn)] + rust_block_tokens(body@),
        RustItem::Struct => seq![Token::Tag(Tag::Struct)],
        RustItem::Enum => seq![Token::Tag(Tag::Enum)],
        RustItem::Impl => seq![Token::Tag(Tag::Impl)],
        RustItem::Other => seq![Token::Tag(Tag::OtherItem)],
    }
}

/// The tokens of the items of a Rust file, in order.
pub open spec fn rust_file_tokens(items: Seq<RustItem>) -> Seq<Token>
    decreases items.len(),
{
    if items.len() == 0 {
        Seq::empty()
    } else {
        rust_file_tokens(items.drop_last()) + rust_item_tokens(items.last())
    }
}

/// The tokens of a TypeScript or JavaScript expression.
pub open spec fn script_expr_tokens(e: ScriptExpr) -> Seq<Token> {
    match e {
        ScriptExpr::Call => seq![Token::Tag(Tag::Call)],
        ScriptExpr::Ident(name) => seq![Token::Ident(name)],
        ScriptExpr::Lit => seq![Token::Tag(Tag::Literal)],
        ScriptExpr::Assign => seq![Token::Tag(Tag::Assign)],
        ScriptExpr::Other => seq![Token::Tag(Tag::OtherExpr)],
    }
}

/// The tokens of a TypeScript or JavaScript statement.
pub open spec fn script_stmt_tokens(s: ScriptStmt) -> Seq<Token>
    decreases s,
{
    match s {
        ScriptStmt::Expr(e) => seq![Token::Tag(Tag::ExprStmt)] + script_expr_tokens(e),
        ScriptStmt::Block(b) => seq![Token::Tag(Tag::Block)] + script_block_tokens(b@),
        ScriptStmt::If(test) => seq![Token::Tag(Tag::If)] + script_expr_tokens(test),
        ScriptStmt::For => seq![Token::Tag(Tag::For)],
        ScriptStmt::While => seq![Token::Tag(Tag::While)],
        ScriptStmt::Other => seq![Token::Tag(Tag::OtherStmt)],
    }
}

/// The tokens of the statements of a block, in order.
pub open spec fn script_block_tokens(b: Seq<ScriptStmt>) -> Seq<Token>
    decreases b,
{
    if b.len() == 0 {
        Seq::empty()
    } else {
        script_block_tokens(b.drop_last()) + script_stmt_tokens(b.last())
    }
}

/// The tokens of a module item.
pub open spec fn script_item_tokens(i: ScriptItem) -> Seq<Token> {
    match i {
        ScriptItem::Stmt(s) => script_stmt_tokens(s),
        ScriptItem::ModuleDecl => seq![Token::Tag(Tag::ModuleDecl)],
    }
}

/// The tokens of the items of a module, in order.
pub open spec fn script_module_tokens(items: Seq<ScriptItem>) -> Seq<Token>
    decreases items.len(),
{
    if items.len() == 0 {
        Seq::empty()
    } else {
        script_module_tokens(items.drop_last()) + script_item_tokens(items.last())
    }
}

/// The token stream of a parsed submission, in source order.
pub open spec fn tree_tokens(t: SyntaxTree) -> Seq<Token> {
    match t {
        SyntaxTree::Rust(items) => rust_file_tokens(items@),
        SyntaxTree::Script(items) => script_module_tokens(items@),
    }
}

fn push_tag(tokens: &mut Vec<Token>, t: Tag)
    ensures
        final(tokens)@ == old(tokens)@ + seq![Token::Tag(t)],
{
    tokens.push(Token::Tag(t));
}

/// Appends the tokens of a Rust expression.
pub fn extract_rust_expr_tokens(e: &RustExpr, tokens: &mut Vec<Token>)
    ensures
        final(tokens)@ == old(tokens)@ + rust_expr_tokens(*e),
    decreases e,
{
    match e {
        RustExpr::Call => push_tag(tokens, Tag::Call),
        RustExpr::MethodCall => push_tag(tokens, Tag::MethodCall),
        RustExpr::Path => push_tag(tokens, Tag::Path),
        RustExpr::Lit => push_tag(tokens, Tag::Literal),
        RustExpr::Assign => push_tag(tokens, Tag::Assign),
        RustExpr::If(body) => {
            push_tag(tokens, Tag::If);
            extract_rust_block_tokens(body, tokens);
            assert(final(tokens)@ =~= old(tokens)@ + rust_expr_tokens(*e));
        },
        RustExpr::ForLoop => push_tag(tokens, Tag::For),
        RustExpr::While => push_tag(tokens, Tag::While),
        RustExpr::Other => push_tag(tokens, Tag::OtherExpr),
    }
}

/// Appends the tokens of a Rust statement.
pub fn extract_rust_stmt_tokens(s: &RustStmt, tokens: &mut Vec<Token>)
    ensures
        final(tokens)@ == old(tokens)@ + rust_stmt_tokens(*s),
    decreases s,
{
    match s {
        RustStmt::Expr(e) => extract_rust_expr_tokens(e, tokens),
        RustStmt::Item(i) => extract_rust_tokens(i, tokens),
        RustStmt::Other => push_tag(tokens, Tag::OtherStmt),
    }
}

/// Appends the tokens of the statements of a Rust block.
pub fn extract_rust_block_tokens(b: &Vec<RustStmt>, tokens: &mut Vec<Token>)
    ensures
        final(tokens)@ == old(tokens)@ + rust_block_tokens(b@),
    decreases b,
{
    let mut i: usize = 0;
    assert(b@.take(0) =~= Seq::<RustStmt>::empty());
    while i < b.len()
        invariant
            i <= b@.len(),
            tokens@ == old(tokens)@ + rust_block_tokens(b@.take(i as int)),
        decreases b.len() - i,
    {
        assert(b@.take(i + 1).drop_last() =~= b@.take(i as int));
        assert(b@.take(i + 1).last() == b@[i as int]);
        extract_rust_stmt_tokens(&b[i], tokens);
        assert(tokens@ =~= old(tokens)@ + rust_block_tokens(b@.take(i + 1)));
        i = i + 1;
    }
    assert(b@.take(b@.len() as int) =~= b@);
}

/// Appends the tokens of a Rust item.
pub fn extract_rust_tokens(item: &RustItem, tokens: &mut Vec<Token>)
    ensures
        final(tokens)@ == old(tokens)@ + rust_item_tokens(*item),
    decreases item,
{
    match item {
        RustItem::Fn(body) => {
            push_tag(tokens, Tag::Fn);
            extract_rust_block_tokens(body, tokens);
            assert(final(tokens)@ =~= old(tokens)@ + rust_item_tokens(*item));
        },
        RustItem::Struct => push_tag(tokens, Tag::Struct),
        RustItem::Enum => push_tag(tokens, Tag::Enum),
        RustItem::Impl => push_tag(tokens, Tag::Impl),
        RustItem::Other => push_tag(tokens, Tag::OtherItem),
    }
}

/// Appends the tokens of a TypeScript or JavaScript expression.
pub fn extract_typescript_expr_tokens(e: &ScriptExpr, tokens: &mut Vec<Token>)
    ensures
        final(tokens)@ == old(tokens)@ + script_expr_tokens(*e),
{
    match e {
        ScriptExpr::Call => push_tag(tokens, Tag::Call),
        ScriptExpr::Ident(name) => {
            tokens.push(Token::Ident(name.clone()));
            assert(final(tokens)@ =~= old(tokens)@ + script_expr_tokens(*e));
        },
        ScriptExpr::Lit => push_tag(tokens, Tag::Literal),
        ScriptExpr::Assign => push_tag(tokens, Tag::Assign),
        ScriptExpr::Other => push_tag(tokens, Tag::OtherExpr),
    }
}

/// Appends the tokens of a TypeScript or JavaScript statement.
pub fn extract_typescript_tokens(s: &ScriptStmt, tokens: &mut Vec<Token>)
    ensures
        final(tokens)@ == old(tokens)@ + script_stmt_tokens(*s),
    decreases s,
{
    match s {
        ScriptStmt::Expr(e) => {
            push_tag(tokens, Tag::ExprStmt);
            extract_typescript_expr_tokens(e, tokens);
            assert(final(tokens)@ =~= old(tokens)@ + script_stmt_tokens(*s));
        },
        ScriptStmt::Block(b) => {
            push_tag(tokens, Tag::Block);
            extract_typescript_block_tokens(b, tokens);
            assert(final(tokens)@ =~= old(tokens)@ + script_stmt_tokens(*s));
        },
        ScriptStmt::If(test) => {
            push_tag(tokens, Tag::If);
            extract_typescript_expr_tokens(test, tokens);
            assert(final(tokens)@ =~= old(tokens)@ + script_stmt_tokens(*s));
        },
        ScriptStmt::For => push_tag(tokens, Tag::For),
        ScriptStmt::While => push_tag(tokens, Tag::While),
        ScriptStmt::Other => push_tag(tokens, Tag::OtherStmt),
    }
}

/// Appends the tokens of the statements of a TypeScript or JavaScript block.
pub fn extract_typescript_block_tokens(b: &Vec<ScriptStmt>, tokens: &mut Vec<Token>)
    ensures
        final(tokens)@ == old(tokens)@ + script_block_tokens(b@),
    decreases b,
{
    let mut i: usize = 0;
    assert(b@.take(0) =~= Seq::<ScriptStmt>::empty());
    while i < b.len()
        invariant
            i <= b@.len(),
            tokens@ == old(tokens)@ + script_block_tokens(b@.take(i as int)),
        decreases b.len() - i,
    {
        assert(b@.take(i + 1).drop_last() =~= b@.take(i as int));
        assert(b@.take(i + 1).last() == b@[i as int]);
        extract_typescript_tokens(&b[i], tokens);
        assert(tokens@ =~= old(tokens)@ + script_block_tokens(b@.take(i + 1)));
        i = i + 1;
    }
    assert(b@.take(b@.len() as int) =~= b@);
}

/// The token stream of a parsed submission.
pub fn extract_tokens(tree: &SyntaxTree) -> (tokens: Vec<Token>)
    ensures
        tokens@ == tree_tokens(*tree),
{
    let mut tokens: Vec<Token> = Vec::new();
    match tree {
        SyntaxTree::Rust(items) => {
            let mut i: usize = 0;
            assert(items@.take(0) =~= Seq::<RustItem>::empty());
            while i < items.len()
                invariant
                    i <= items@.len(),
                    tokens@ == rust_file_tokens(items@.take(i as int)),
                decreases items.len() - i,
            {
                assert(items@.take(i + 1).drop_last() =~= items@.take(i as int));
                assert(items@.take(i + 1).last() == items@[i as int]);
                extract_rust_tokens(&items[i], &mut tokens);
                i = i + 1;
            }
            assert(items@.take(items@.len() as int) =~= items@);
        },
        SyntaxTree::Script(items) => {
            let mut i: usize = 0;
            assert(items@.take(0) =~= Seq::<ScriptItem>::empty());
            while i < items.len()
                invariant
                    i <= items@.len(),
                    tokens@ == script_module_tokens(items@.take(i as int)),
                decreases items.len() - i,
            {
                assert(items@.take(i + 1).drop_last() =~= items@.take(i as int));
                assert(items@.take(i + 1).last() == items@[i as int]);
                match &items[i] {
                    ScriptItem::Stmt(s) => extract_typescript_tokens(s, &mut tokens),
                    ScriptItem::ModuleDecl => push_tag(&mut tokens, Tag::ModuleDecl),
                }
                i = i + 1;
            }
            assert(items@.take(items@.len() as int) =~= items@);
        },
    }
    tokens
}

} // verus!
