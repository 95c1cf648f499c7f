//! The concrete syntax tree: four families of nodes (declarations, types, statements,
//! expressions), each a closed sum with one visitor trait. Every node owns its children
//! and keeps the ranges of its lexical anchors.

use vstd::prelude::*;
use crate::syntax::token::{SourceRange, TokenKind};

verus! {

/// A declaration.
pub enum Decl {
    BoxDecl(BoxDecl),
    MagicDecl(MagicDecl),
}

/// A visitor over declarations; `visit_decl` hands each variant to its own method.
pub trait DeclVisitor {
    type DeclResult;

    /// What `visit_box_decl` promises, relating the visitor before and after,
    /// the node and the result; an implementation that promises nothing keeps this
    /// default.
    open spec fn visited_box_decl(
        &self,
        after: &Self,
        box_decl: &BoxDecl,
        r: &Self::DeclResult,
    ) -> bool {
        true
    }

    /// What `visit_magic_decl` promises, relating the visitor before and after,
    /// the node and the result; an implementation that promises nothing keeps this
    /// default.
    open spec fn visited_magic_decl(
        &self,
        after: &Self,
        magic_decl: &MagicDecl,
        r: &Self::DeclResult,
    ) -> bool {
        true
    }

    /// Hands the node to the method named after its variant and returns what that
    /// method returns.
    fn visit_decl(&mut self, decl: &Decl) -> (r: Self::DeclResult)
        ensures
            match decl {
                Decl::BoxDecl(x) => old(self).visited_box_decl(final(self), x, &r),
                Decl::MagicDecl(x) => old(self).visited_magic_decl(final(self), x, &r),
            },
    {
        match decl {
            Decl::BoxDecl(box_decl) => self.visit_box_decl(box_decl),
            Decl::MagicDecl(magic_decl) => self.visit_magic_decl(magic_decl),
        }
    }

    fn visit_box_decl(&mut self, box_decl: &BoxDecl) -> (r: Self::DeclResult)
        ensures
            old(self).visited_box_decl(final(self), box_decl, &r),
    ;

    fn visit_magic_decl(&mut self, magic_decl: &MagicDecl) -> (r: Self::DeclResult)
        ensures
            old(self).visited_magic_decl(final(self), magic_decl, &r),
    ;
}

/// A variable binding: `box name: type <- init`, where the type and the initializer
/// may each be left out.
pub struct BoxDecl {
    pub box_name: String,
    pub box_type: Option<Box<Type>>,
    pub box_kwd_range: SourceRange,
    pub box_name_range: SourceRange,
    pub eq_range: Option<SourceRange>,
    pub init_expr: Option<Box<Expr>>,
}

impl BoxDecl {
    /// A binding without an initializer.
    pub fn new(
        box_name: String,
        box_type: Option<Box<Type>>,
        box_kwd_range: SourceRange,
        box_name_range: SourceRange,
    ) -> (r: Self)
        ensures
            r.box_name == box_name,
            r.box_type == box_type,
            r.box_kwd_range == box_kwd_range,
            r.box_name_range == box_name_range,
            r.eq_range is None,
            r.init_expr is None,
    {
        BoxDecl {
            box_name,
            box_type,
            box_kwd_range,
            box_name_range,
            eq_range: None,
            init_expr: None,
        }
    }

    /// A binding with an initializer, and the range of its assignment arrow.
    pub fn with_init_expr(
        box_name: String,
        box_type: Option<Box<Type>>,
        box_kwd_range: SourceRange,
        box_name_range: SourceRange,
        eq_range: SourceRange,
        init_expr: Box<Expr>,
    ) -> (r: Self)
        ensures
            r.box_name == box_name,
            r.box_type == box_type,
            r.box_kwd_range == box_kwd_range,
            r.box_name_range == box_name_range,
            r.eq_range == Some(eq_range),
            r.init_expr == Some(init_expr),
    {
        BoxDecl {
            box_name,
            box_type,
            box_kwd_range,
            box_name_range,
            eq_range: Some(eq_range),
            init_expr: Some(init_expr),
        }
    }
}

/// A function-like declaration: a name, its parameters in groups (each group a list of
/// names with their types), and a body unless it is a prototype.
pub struct MagicDecl {
    pub magic_name: String,
    pub parameters: Vec<Vec<(String, Box<Type>)>>,
    pub magic_kwd_range: SourceRange,
    pub magic_name_range: SourceRange,
    pub left_bracket_pos: SourceRange,
    pub right_bracket_pos: SourceRange,
    pub body: Option<Box<Stmt>>,
}

impl MagicDecl {
    /// A prototype: the declaration without a body.
    pub fn decl(
        magic_name: String,
        parameters: Vec<Vec<(String, Box<Type>)>>,
        magic_kwd_range: SourceRange,
        magic_name_range: SourceRange,
        left_bracket_pos: SourceRange,
        right_bracket_pos: SourceRange,
    ) -> (r: Self)
        ensures
            r.magic_name == magic_name,
            r.parameters == parameters,
            r.magic_kwd_range == magic_kwd_range,
            r.magic_name_range == magic_name_range,
            r.left_bracket_pos == left_bracket_pos,
            r.right_bracket_pos == right_bracket_pos,
            r.body is None,
    {
        MagicDecl {
            magic_name,
            parameters,
            magic_kwd_range,
            magic_name_range,
            left_bracket_pos,
            right_bracket_pos,
            body: None,
        }
    }

    /// A full definition, with its body.
    pub fn def(
        magic_name: String,
        parameters: Vec<Vec<(String, Box<Type>)>>,
        magic_kwd_range: SourceRange,
        magic_name_range: SourceRange,
        left_bracket_pos: SourceRange,
        right_bracket_pos: SourceRange,
        body: Box<Stmt>,
    ) -> (r: Self)
        ensures
            r.magic_name == magic_name,
            r.parameters == parameters,
            r.magic_kwd_range == magic_kwd_range,
            r.magic_name_range == magic_name_range,
            r.left_bracket_pos == left_bracket_pos,
            r.right_bracket_pos == right_bracket_pos,
            r.body == Some(body),
    {
        MagicDecl {
            magic_name,
            parameters,
            magic_kwd_range,
            magic_name_range,
            left_bracket_pos,
            right_bracket_pos,
            body: Some(body),
        }
    }
}

/// A type.
pub enum Type {
    BuiltinType(BuiltinType),
    RefType(RefType),
    ArrayType(ArrayType),
}

/// A visitor over types; `visit_type` hands each variant to its own method.
pub trait TypeVisitor {
    type TypeResult;

    /// What `visit_builtin_type` promises, relating the visitor before and after,
    /// the node and the result; an implementation that promises nothing keeps this
    /// default.
    open spec fn visited_builtin_type(
        &self,
        after: &Self,
        builtin_type: &BuiltinType,
        r: &Self::TypeResult,
    ) -> bool {
        true
    }

    /// What `visit_ref_type` promises, relating the visitor before and after,
    /// the node and the result; an implementation that promises nothing keeps this
    /// default.
    open spec fn visited_ref_type(
        &self,
        after: &Self,
        ref_type: &RefType,
        r: &Self::TypeResult,
    ) -> bool {
        true
    }

    /// What `visit_array_type` promises, relating the visitor before and after,
    /// the node and the result; an implementation that promises nothing keeps this
    /// default.
    open spec fn visited_array_type(
        &self,
        after: &Self,
        arr_type: &ArrayType,
        r: &Self::TypeResult,
    ) -> bool {
        true
    }

    /// Hands the node to the method named after its variant and returns what that
    /// method returns.
    fn visit_type(&mut self, ty: &Type) -> (r: Self::TypeResult)
        ensures
            match ty {
                Type::BuiltinType(x) => old(self).visited_builtin_type(final(self), x, &r),
                Type::RefType(x) => old(self).visited_ref_type(final(self), x, &r),
                Type::ArrayType(x) => old(self).visited_array_type(final(self), x, &r),
            },
    {
        match ty {
            Type::BuiltinType(builtin_type) => self.visit_builtin_type(builtin_type),
            Type::RefType(ref_type) => self.visit_ref_type(ref_type),
            Type::ArrayType(arr_type) => self.visit_array_type(arr_type),
        }
    }

    fn visit_builtin_type(&mut self, builtin_type: &BuiltinType) -> (r: Self::TypeResult)
        ensures
            old(self).visited_builtin_type(final(self), builtin_type, &r),
    ;

    fn visit_ref_type(&mut self, ref_type: &RefType) -> (r: Self::TypeResult)
        ensures
            old(self).visited_ref_type(final(self), ref_type, &r),
    ;

    fn visit_array_type(&mut self, arr_type: &ArrayType) -> (r: Self::TypeResult)
        ensures
            old(self).visited_array_type(final(self), arr_type, &r),
    ;
}

/// A type named by a keyword, such as `i32` or `lang`.
pub struct BuiltinType {
    pub type_token_kind: TokenKind,
    pub source_range: SourceRange,
}

impl BuiltinType {
    pub fn new(type_token_kind: TokenKind, source_range: SourceRange) -> (r: Self)
        ensures
            r.type_token_kind == type_token_kind,
            r.source_range == source_range,
    {
        BuiltinType { type_token_kind, source_range }
    }
}

/// A reference type, `~base`.
pub struct RefType {
    pub base_type: Box<Type>,
    pub wave_line_position: SourceRange,
}

impl RefType {
    pub fn new(base_type: Box<Type>, wave_line_position: SourceRange) -> (r: Self)
        ensures
            r.base_type == base_type,
            r.wave_line_position == wave_line_position,
    {
        RefType { base_type, wave_line_position }
    }
}

/// An array type, `base*`.
pub struct ArrayType {
    pub base_type: Box<Type>,
    pub aster_position: SourceRange,
}

impl ArrayType {
    pub fn new(base_type: Box<Type>, aster_position: SourceRange) -> (r: Self)
        ensures
            r.base_type == base_type,
            r.aster_position == aster_position,
    {
        ArrayType { base_type, aster_position }
    }
}

/// A statement.
pub enum Stmt {
    ExprStmt(ExprStmt),
    DeclStmt(DeclStmt),
    BlockStmt(BlockStmt),
}

/// A visitor over statements; `visit_stmt` hands each variant to its own method.
pub trait StmtVisitor {
    type StmtResult;

    /// What `visit_expr_stmt` promises, relating the visitor before and after,
    /// the node and the result; an implementation that promises nothing keeps this
    /// default.
    open spec fn visited_expr_stmt(
        &self,
        after: &Self,
        expr_stmt: &ExprStmt,
        r: &Self::StmtResult,
    ) -> bool {
        true
    }

    /// What `visit_decl_stmt` promises, relating the visitor before and after,
    /// the node and the result; an implementation that promises nothing keeps this
    /// default.
    open spec fn visited_decl_stmt(
        &self,
        after: &Self,
        decl_stmt: &DeclStmt,
        r: &Self::StmtResult,
    ) -> bool {
        true
    }

    /// What `visit_block_stmt` promises, relating the visitor before and after,
    /// the node and the result; an implementation that promises nothing keeps this
    /// default.
    open spec fn visited_block_stmt(
        &self,
        after: &Self,
        block_stmt: &BlockStmt,
        r: &Self::StmtResult,
    ) -> bool {
        true
    }

    /// Hands the node to the method named after its variant and returns what that
    /// method returns.
    fn visit_stmt(&mut self, stmt: &Stmt) -> (r: Self::StmtResult)
        ensures
            match stmt {
                Stmt::ExprStmt(x) => old(self).visited_expr_stmt(final(self), x, &r),
                Stmt::DeclStmt(x) => old(self).visited_decl_stmt(final(self), x, &r),
                Stmt::BlockStmt(x) => old(self).visited_block_stmt(final(self), x, &r),
            },
    {
        match stmt {
            Stmt::ExprStmt(expr_stmt) => self.visit_expr_stmt(expr_stmt),
            Stmt::DeclStmt(decl_stmt) => self.visit_decl_stmt(decl_stmt),
            Stmt::BlockStmt(block_stmt) => self.visit_block_stmt(block_stmt),
        }
    }

    fn visit_expr_stmt(&mut self, expr_stmt: &ExprStmt) -> (r: Self::StmtResult)
        ensures
            old(self).visited_expr_stmt(final(self), expr_stmt, &r),
    ;

    fn visit_decl_stmt(&mut self, decl_stmt: &DeclStmt) -> (r: Self::StmtResult)
        ensures
            old(self).visited_decl_stmt(final(self), decl_stmt, &r),
    ;

    fn visit_block_stmt(&mut self, block_stmt: &BlockStmt) -> (r: Self::StmtResult)
        ensures
            old(self).visited_block_stmt(final(self), block_stmt, &r),
    ;
}

/// An expression used as a statement.
pub struct ExprStmt {
    pub expr: Box<Expr>,
}

impl ExprStmt {
    pub fn new(expr: Box<Expr>) -> (r: Self)
        ensures
            r.expr == expr,
    {
        ExprStmt { expr }
    }
}

/// A declaration used as a statement.
pub struct DeclStmt {
    pub decl: Box<Decl>,
}

impl DeclStmt {
    pub fn new(decl: Box<Decl>) -> (r: Self)
        ensures
            r.decl == decl,
    {
        DeclStmt { decl }
    }
}

/// A braced sequence of statements.
pub struct BlockStmt {
    pub stmts: Vec<Stmt>,
    pub left_brace_pos: SourceRange,
    pub right_brace_pos: SourceRange,
}

impl BlockStmt {
    pub fn new(stmts: Vec<Stmt>, left_brace_pos: SourceRange, right_brace_pos: SourceRange) -> (r:
        Self)
        ensures
            r.stmts == stmts,
            r.left_brace_pos == left_brace_pos,
            r.right_brace_pos == right_brace_pos,
    {
        BlockStmt { stmts, left_brace_pos, right_brace_pos }
    }
}

/// An expression.
pub enum Expr {
    MagicSymRefExpr(MagicSymRefExpr),
    BinaryExpr(BinaryExpr),
    UnaryExpr(UnaryExpr),
    InvokeLikeExpr(InvokeLikeExpr),
    BlockExpr(BlockExpr),
}

/// A visitor over expressions; `visit_expr` hands each variant to its own method.
pub trait ExprVisitor {
    type ExprResult;

    /// What `visit_magic_sym_ref_expr` promises, relating the visitor before and after,
    /// the node and the result; an implementation that promises nothing keeps this
    /// default.
    open spec fn visited_magic_sym_ref_expr(
        &self,
        after: &Self,
        magic_sym_ref_expr: &MagicSymRefExpr,
        r: &Self::ExprResult,
    ) -> bool {
        true
    }

    /// What `visit_binary_expr` promises, relating the visitor before and after,
    /// the node and the result; an implementation that promises nothing keeps this
    /// default.
    open spec fn visited_binary_expr(
        &self,
        after: &Self,
        binary_expr: &BinaryExpr,
        r: &Self::ExprResult,
    ) -> bool {
        true
    }

    /// What `visit_unary_expr` promises, relating the visitor before and after,
    /// the node and the result; an implementation that promises nothing keeps this
    /// default.
    open spec fn visited_unary_expr(
        &self,
        after: &Self,
        unary_expr: &UnaryExpr,
        r: &Self::ExprResult,
    ) -> bool {
        true
    }

    /// What `visit_invoke_like_expr` promises, relating the visitor before and after,
    /// the node and the result; an implementation that promises nothing keeps this
    /// default.
    open spec fn visited_invoke_like_expr(
        &self,
        after: &Self,
        invoke_like_expr: &InvokeLikeExpr,
        r: &Self::ExprResult,
    ) -> bool {
        true
    }

    /// What `visit_block_expr` promises, relating the visitor before and after,
    /// the node and the result; an implementation that promises nothing keeps this
    /// default.
    open spec fn visited_block_expr(
        &self,
        after: &Self,
        block_expr: &BlockExpr,
        r: &Self::ExprResult,
    ) -> bool {
        true
    }

    /// Hands the node to the method named after its variant and returns what that
    /// method returns.
    fn visit_expr(&mut self, expr: &Expr) -> (r: Self::ExprResult)
        ensures
            match expr {
                Expr::MagicSymRefExpr(x) => old(self).visited_magic_sym_ref_expr(
                    final(self),
                    x,
                    &r,
                ),
                Expr::BinaryExpr(x) => old(self).visited_binary_expr(final(self), x, &r),
                Expr::UnaryExpr(x) => old(self).visited_unary_expr(final(self), x, &r),
                Expr::InvokeLikeExpr(x) => old(self).visited_invoke_like_expr(final(self), x, &r),
                Expr::BlockExpr(x) => old(self).visited_block_expr(final(self), x, &r),
            },
    {
        match expr {
            Expr::MagicSymRefExpr(magic_sym_ref_expr) => self.visit_magic_sym_ref_expr(
                magic_sym_ref_expr,
            ),
            Expr::BinaryExpr(binary_expr) => self.visit_binary_expr(binary_expr),
            Expr::UnaryExpr(unary_expr) => self.visit_unary_expr(unary_expr),
            Expr::InvokeLikeExpr(invoke_like_expr) => self.visit_invoke_like_expr(invoke_like_expr),
            Expr::BlockExpr(block_expr) => self.visit_block_expr(block_expr),
        }
    }

    fn visit_magic_sym_ref_expr(
        &mut self,
        magic_sym_ref_expr: &MagicSymRefExpr,
    ) -> (r: Self::ExprResult)
        ensures
            old(self).visited_magic_sym_ref_expr(final(self), magic_sym_ref_expr, &r),
    ;

    fn visit_binary_expr(&mut self, binary_expr: &BinaryExpr) -> (r: Self::ExprResult)
        ensures
            old(self).visited_binary_expr(final(self), binary_expr, &r),
    ;

    fn visit_unary_expr(&mut self, unary_expr: &UnaryExpr) -> (r: Self::ExprResult)
        ensures
            old(self).visited_unary_expr(final(self), unary_expr, &r),
    ;

    fn visit_invoke_like_expr(&mut self, invoke_like_expr: &InvokeLikeExpr) -> (r: Self::ExprResult)
        ensures
            old(self).visited_invoke_like_expr(final(self), invoke_like_expr, &r),
    ;

    fn visit_block_expr(&mut self, block_expr: &BlockExpr) -> (r: Self::ExprResult)
        ensures
            old(self).visited_block_expr(final(self), block_expr, &r),
    ;
}

/// A reference to a magic symbol by its name.
pub struct MagicSymRefExpr {
    pub magic_sym: String,
    pub magic_sym_range: SourceRange,
}

impl MagicSymRefExpr {
    pub fn new(magic_sym: String, magic_sym_range: SourceRange) -> (r: Self)
        ensures
            r.magic_sym == magic_sym,
            r.magic_sym_range == magic_sym_range,
    {
        MagicSymRefExpr { magic_sym, magic_sym_range }
    }
}

/// An operator applied to two operands.
pub struct BinaryExpr {
    pub operator: TokenKind,
    pub lhs: Box<Expr>,
    pub rhs: Box<Expr>,
    pub operator_position: SourceRange,
}

impl BinaryExpr {
    pub fn new(
        operator: TokenKind,
        lhs: Box<Expr>,
        rhs: Box<Expr>,
        operator_position: SourceRange,
    ) -> (r: Self)
        ensures
            r.operator == operator,
            r.lhs == lhs,
            r.rhs == rhs,
            r.operator_position == operator_position,
    {
        BinaryExpr { operator, lhs, rhs, operator_position }
    }
}

/// An operator applied to one operand.
pub struct UnaryExpr {
    pub operator: TokenKind,
    pub base: Box<Expr>,
    pub operator_position: SourceRange,
}

impl UnaryExpr {
    pub fn new(operator: TokenKind, base: Box<Expr>, operator_position: SourceRange) -> (r: Self)
        ensures
            r.operator == operator,
            r.base == base,
            r.operator_position == operator_position,
    {
        UnaryExpr { operator, base, operator_position }
    }
}

/// A call-like form: a callee and its arguments in bracketed groups.
pub struct InvokeLikeExpr {
    pub base: Box<Expr>,
    pub params: Vec<Vec<Box<Expr>>>,
    pub left_bracket_pos: SourceRange,
    pub right_bracket_pos: SourceRange,
}

impl InvokeLikeExpr {
    pub fn new(
        base: Box<Expr>,
        params: Vec<Vec<Box<Expr>>>,
        left_bracket_pos: SourceRange,
        right_bracket_pos: SourceRange,
    ) -> (r: Self)
        ensures
            r.base == base,
            r.params == params,
            r.left_bracket_pos == left_bracket_pos,
            r.right_bracket_pos == right_bracket_pos,
    {
        InvokeLikeExpr { base, params, left_bracket_pos, right_bracket_pos }
    }
}

/// A block used as a value: its statements, then the expression whose value the block
/// takes, if there is one.
pub struct BlockExpr {
    pub stmts: Vec<Stmt>,
    pub last_expr: Option<Box<Expr>>,
    pub left_bracket_pos: SourceRange,
    pub right_bracket_pos: SourceRange,
}

impl BlockExpr {
    pub fn new(
        stmts: Vec<Stmt>,
        last_expr: Option<Box<Expr>>,
        left_bracket_pos: SourceRange,
        right_bracket_pos: SourceRange,
    ) -> (r: Self)
        ensures
            r.stmts == stmts,
            r.last_expr == last_expr,
            r.left_bracket_pos == left_bracket_pos,
            r.right_bracket_pos == right_bracket_pos,
    {
        BlockExpr { stmts, last_expr, left_bracket_pos, right_bracket_pos }
    }
}

} // verus!
