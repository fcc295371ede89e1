use vstd::prelude::*;

verus! {

/// How many kinds the catalog holds.
pub const KIND_COUNT: usize = 105;

/// One entry of the kind catalog: a tag for one grammar production.
#[derive(Copy, Clone, Eq, PartialEq, Structural, Debug, Hash)]
pub enum CallbackType {
    File,
    Item,
    ItemConst,
    ItemEnum,
    ItemExternCrate,
    ItemFn,
    ItemForeignMod,
    ItemImpl,
    ItemMacro,
    ItemMacro2,
    ItemMod,
    ItemStatic,
    ItemStruct,
    ItemTrait,
    ItemTraitAlias,
    ItemType,
    ItemUnion,
    ItemUse,
    Variant,
    ForeignItem,
    ForeignItemFn,
    ForeignItemStatic,
    ForeignItemType,
    ForeignItemMacro,
    ImplItem,
    ImplItemConst,
    ImplItemMethod,
    ImplItemType,
    ImplItemMacro,
    TraitItem,
    TraitItemConst,
    TraitItemMethod,
    TraitItemType,
    TraitItemMacro,
    Block,
    Stmts,
    Stmt,
    Local,
    Pat,
    PatBox,
    PatIdent,
    PatLit,
    PatMacro,
    PatOr,
    PatPath,
    PatRange,
    PatReference,
    PatRest,
    PatSlice,
    PatStruct,
    PatTuple,
    PatTupleStruct,
    PatType,
    PatWild,
    Expr,
    ExprArray,
    ExprAssign,
    ExprAssignOp,
    ExprAsync,
    ExprAwait,
    ExprBinary,
    ExprBlock,
    ExprBox,
    ExprBreak,
    ExprCall,
    ExprCast,
    ExprClosure,
    ExprContinue,
    ExprField,
    ExprForLoop,
    ExprGroup,
    ExprIf,
    ExprIndex,
    ExprLet,
    ExprLit,
    ExprLoop,
    ExprMacro,
    ExprMatch,
    ExprMethodCall,
    ExprParen,
    ExprPath,
    ExprRange,
    ExprReference,
    ExprRepeat,
    ExprReturn,
    ExprStruct,
    ExprTry,
    ExprTryBlock,
    ExprTuple,
    ExprType,
    ExprUnary,
    ExprUnsafe,
    ExprWhile,
    ExprYield,
    Arm,
    Lit,
    LitStr,
    LitByteStr,
    LitByte,
    LitChar,
    LitInt,
    LitFloat,
    LitBool,
    FieldValue,
    Verbatim,
}

impl CallbackType {
    /// Position of this kind in the catalog.
    pub open spec fn index_spec(self) -> int {
        match self {
            CallbackType::File => 0,
            CallbackType::Item => 1,
            CallbackType::ItemConst => 2,
            CallbackType::ItemEnum => 3,
            CallbackType::ItemExternCrate => 4,
            CallbackType::ItemFn => 5,
            CallbackType::ItemForeignMod => 6,
            CallbackType::ItemImpl => 7,
            CallbackType::ItemMacro => 8,
            CallbackType::ItemMacro2 => 9,
            CallbackType::ItemMod => 10,
            CallbackType::ItemStatic => 11,
            CallbackType::ItemStruct => 12,
            CallbackType::ItemTrait => 13,
            CallbackType::ItemTraitAlias => 14,
            CallbackType::ItemType => 15,
            CallbackType::ItemUnion => 16,
            CallbackType::ItemUse => 17,
            CallbackType::Variant => 18,
            CallbackType::ForeignItem => 19,
            CallbackType::ForeignItemFn => 20,
            CallbackType::ForeignItemStatic => 21,
            CallbackType::ForeignItemType => 22,
            CallbackType::ForeignItemMacro => 23,
            CallbackType::ImplItem => 24,
            CallbackType::ImplItemConst => 25,
            CallbackType::ImplItemMethod => 26,
            CallbackType::ImplItemType => 27,
            CallbackType::ImplItemMacro => 28,
            CallbackType::TraitItem => 29,
            CallbackType::TraitItemConst => 30,
            CallbackType::TraitItemMethod => 31,
            CallbackType::TraitItemType => 32,
            CallbackType::TraitItemMacro => 33,
            CallbackType::Block => 34,
            CallbackType::Stmts => 35,
            CallbackType::Stmt => 36,
            CallbackType::Local => 37,
            CallbackType::Pat => 38,
            CallbackType::PatBox => 39,
            CallbackType::PatIdent => 40,
            CallbackType::PatLit => 41,
            CallbackType::PatMacro => 42,
            CallbackType::PatOr => 43,
            CallbackType::PatPath => 44,
            CallbackType::PatRange => 45,
            CallbackType::PatReference => 46,
            CallbackType::PatRest => 47,
            CallbackType::PatSlice => 48,
            CallbackType::PatStruct => 49,
            CallbackType::PatTuple => 50,
            CallbackType::PatTupleStruct => 51,
            CallbackType::PatType => 52,
            CallbackType::PatWild => 53,
            CallbackType::Expr => 54,
            CallbackType::ExprArray => 55,
            CallbackType::ExprAssign => 56,
            CallbackType::ExprAssignOp => 57,
            CallbackType::ExprAsync => 58,
            CallbackType::ExprAwait => 59,
            CallbackType::ExprBinary => 60,
            CallbackType::ExprBlock => 61,
            CallbackType::ExprBox => 62,
            CallbackType::ExprBreak => 63,
            CallbackType::ExprCall => 64,
            CallbackType::ExprCast => 65,
            CallbackType::ExprClosure => 66,
            CallbackType::ExprContinue => 67,
            CallbackType::ExprField => 68,
            CallbackType::ExprForLoop => 69,
            CallbackType::ExprGroup => 70,
            CallbackType::ExprIf => 71,
            CallbackType::ExprIndex => 72,
            CallbackType::ExprLet => 73,
            CallbackType::ExprLit => 74,
            CallbackType::ExprLoop => 75,
            CallbackType::ExprMacro => 76,
            CallbackType::ExprMatch => 77,
            CallbackType::ExprMethodCall => 78,
            CallbackType::ExprParen => 79,
            CallbackType::ExprPath => 80,
            CallbackType::ExprRange => 81,
            CallbackType::ExprReference => 82,
            CallbackType::ExprRepeat => 83,
            CallbackType::ExprReturn => 84,
            CallbackType::ExprStruct => 85,
            CallbackType::ExprTry => 86,
            CallbackType::ExprTryBlock => 87,
            CallbackType::ExprTuple => 88,
            CallbackType::ExprType => 89,
            CallbackType::ExprUnary => 90,
            CallbackType::ExprUnsafe => 91,
            CallbackType::ExprWhile => 92,
            CallbackType::ExprYield => 93,
            CallbackType::Arm => 94,
            CallbackType::Lit => 95,
            CallbackType::LitStr => 96,
            CallbackType::LitByteStr => 97,
            CallbackType::LitByte => 98,
            CallbackType::LitChar => 99,
            CallbackType::LitInt => 100,
            CallbackType::LitFloat => 101,
            CallbackType::LitBool => 102,
            CallbackType::FieldValue => 103,
            CallbackType::Verbatim => 104,
        }
    }

    /// Position of this kind in the catalog.
    pub fn index(self) -> (r: usize)
        ensures
            r == self.index_spec(),
            r < KIND_COUNT,
    {
        match self {
            CallbackType::File => 0,
            CallbackType::Item => 1,
            CallbackType::ItemConst => 2,
            CallbackType::ItemEnum => 3,
            CallbackType::ItemExternCrate => 4,
            CallbackType::ItemFn => 5,
            CallbackType::ItemForeignMod => 6,
            CallbackType::ItemImpl => 7,
            CallbackType::ItemMacro => 8,
            CallbackType::ItemMacro2 => 9,
            CallbackType::ItemMod => 10,
            CallbackType::ItemStatic => 11,
            CallbackType::ItemStruct => 12,
            CallbackType::ItemTrait => 13,
            CallbackType::ItemTraitAlias => 14,
            CallbackType::ItemType => 15,
            CallbackType::ItemUnion => 16,
            CallbackType::ItemUse => 17,
            CallbackType::Variant => 18,
            CallbackType::ForeignItem => 19,
            CallbackType::ForeignItemFn => 20,
            CallbackType::ForeignItemStatic => 21,
            CallbackType::ForeignItemType => 22,
            CallbackType::ForeignItemMacro => 23,
            CallbackType::ImplItem => 24,
            CallbackType::ImplItemConst => 25,
            CallbackType::ImplItemMethod => 26,
            CallbackType::ImplItemType => 27,
            CallbackType::ImplItemMacro => 28,
            CallbackType::TraitItem => 29,
            CallbackType::TraitItemConst => 30,
            CallbackType::TraitItemMethod => 31,
            CallbackType::TraitItemType => 32,
            CallbackType::TraitItemMacro => 33,
            CallbackType::Block => 34,
            CallbackType::Stmts => 35,
            CallbackType::Stmt => 36,
            CallbackType::Local => 37,
            CallbackType::Pat => 38,
            CallbackType::PatBox => 39,
            CallbackType::PatIdent => 40,
            CallbackType::PatLit => 41,
            CallbackType::PatMacro => 42,
            CallbackType::PatOr => 43,
            CallbackType::PatPath => 44,
            CallbackType::PatRange => 45,
            CallbackType::PatReference => 46,
            CallbackType::PatRest => 47,
            CallbackType::PatSlice => 48,
            CallbackType::PatStruct => 49,
            CallbackType::PatTuple => 50,
            CallbackType::PatTupleStruct => 51,
            CallbackType::PatType => 52,
            CallbackType::PatWild => 53,
            CallbackType::Expr => 54,
            CallbackType::ExprArray => 55,
            CallbackType::ExprAssign => 56,
            CallbackType::ExprAssignOp => 57,
            CallbackType::ExprAsync => 58,
            CallbackType::ExprAwait => 59,
            CallbackType::ExprBinary => 60,
            CallbackType::ExprBlock => 61,
            CallbackType::ExprBox => 62,
            CallbackType::ExprBreak => 63,
            CallbackType::ExprCall => 64,
            CallbackType::ExprCast => 65,
            CallbackType::ExprClosure => 66,
            CallbackType::ExprContinue => 67,
            CallbackType::ExprField => 68,
            CallbackType::ExprForLoop => 69,
            CallbackType::ExprGroup => 70,
            CallbackType::ExprIf => 71,
            CallbackType::ExprIndex => 72,
            CallbackType::ExprLet => 73,
            CallbackType::ExprLit => 74,
            CallbackType::ExprLoop => 75,
            CallbackType::ExprMacro => 76,
            CallbackType::ExprMatch => 77,
            CallbackType::ExprMethodCall => 78,
            CallbackType::ExprParen => 79,
            CallbackType::ExprPath => 80,
            CallbackType::ExprRange => 81,
            CallbackType::ExprReference => 82,
            CallbackType::ExprRepeat => 83,
            CallbackType::ExprReturn => 84,
            CallbackType::ExprStruct => 85,
            CallbackType::ExprTry => 86,
            CallbackType::ExprTryBlock => 87,
            CallbackType::ExprTuple => 88,
            CallbackType::ExprType => 89,
            CallbackType::ExprUnary => 90,
            CallbackType::ExprUnsafe => 91,
            CallbackType::ExprWhile => 92,
            CallbackType::ExprYield => 93,
            CallbackType::Arm => 94,
            CallbackType::Lit => 95,
            CallbackType::LitStr => 96,
            CallbackType::LitByteStr => 97,
            CallbackType::LitByte => 98,
            CallbackType::LitChar => 99,
            CallbackType::LitInt => 100,
            CallbackType::LitFloat => 101,
            CallbackType::LitBool => 102,
            CallbackType::FieldValue => 103,
            CallbackType::Verbatim => 104,
        }
    }
}

/// The kind standing at a given catalog position.
pub open spec fn kind_at_spec(i: int) -> CallbackType {
    if i == 0 { CallbackType::File } else if i == 1 { CallbackType::Item } else if i == 2 { CallbackType::ItemConst } else if i == 3 { CallbackType::ItemEnum } else if i == 4 { CallbackType::ItemExternCrate } else if i == 5 { CallbackType::ItemFn } else if i == 6 { CallbackType::ItemForeignMod } else if i == 7 { CallbackType::ItemImpl } else if i == 8 { CallbackType::ItemMacro } else if i == 9 { CallbackType::ItemMacro2 } else if i == 10 { CallbackType::ItemMod } else if i == 11 { CallbackType::ItemStatic } else if i == 12 { CallbackType::ItemStruct } else if i == 13 { CallbackType::ItemTrait } else if i == 14 { CallbackType::ItemTraitAlias } else if i == 15 { CallbackType::ItemType } else if i == 16 { CallbackType::ItemUnion } else if i == 17 { CallbackType::ItemUse } else if i == 18 { CallbackType::Variant } else if i == 19 { CallbackType::ForeignItem } else if i == 20 { CallbackType::ForeignItemFn } else if i == 21 { CallbackType::ForeignItemStatic } else if i == 22 { CallbackType::ForeignItemType } else if i == 23 { CallbackType::ForeignItemMacro } else if i == 24 { CallbackType::ImplItem } else if i == 25 { CallbackType::ImplItemConst } else if i == 26 { CallbackType::ImplItemMethod } else if i == 27 { CallbackType::ImplItemType } else if i == 28 { CallbackType::ImplItemMacro } else if i == 29 { CallbackType::TraitItem } else if i == 30 { CallbackType::TraitItemConst } else if i == 31 { CallbackType::TraitItemMethod } else if i == 32 { CallbackType::TraitItemType } else if i == 33 { CallbackType::TraitItemMacro } else if i == 34 { CallbackType::Block } else if i == 35 { CallbackType::Stmts } else if i == 36 { CallbackType::Stmt } else if i == 37 { CallbackType::Local } else if i == 38 { CallbackType::Pat } else if i == 39 { CallbackType::PatBox } else if i == 40 { CallbackType::PatIdent } else if i == 41 { CallbackType::PatLit } else if i == 42 { CallbackType::PatMacro } else if i == 43 { CallbackType::PatOr } else if i == 44 { CallbackType::PatPath } else if i == 45 { CallbackType::PatRange } else if i == 46 { CallbackType::PatReference } else if i == 47 { CallbackType::PatRest } else if i == 48 { CallbackType::PatSlice } else if i == 49 { CallbackType::PatStruct } else if i == 50 { CallbackType::PatTuple } else if i == 51 { CallbackType::PatTupleStruct } else if i == 52 { CallbackType::PatType } else if i == 53 { CallbackType::PatWild } else if i == 54 { CallbackType::Expr } else if i == 55 { CallbackType::ExprArray } else if i == 56 { CallbackType::ExprAssign } else if i == 57 { CallbackType::ExprAssignOp } else if i == 58 { CallbackType::ExprAsync } else if i == 59 { CallbackType::ExprAwait } else if i == 60 { CallbackType::ExprBinary } else if i == 61 { CallbackType::ExprBlock } else if i == 62 { CallbackType::ExprBox } else if i == 63 { CallbackType::ExprBreak } else if i == 64 { CallbackType::ExprCall } else if i == 65 { CallbackType::ExprCast } else if i == 66 { CallbackType::ExprClosure } else if i == 67 { CallbackType::ExprContinue } else if i == 68 { CallbackType::ExprField } else if i == 69 { CallbackType::ExprForLoop } else if i == 70 { CallbackType::ExprGroup } else if i == 71 { CallbackType::ExprIf } else if i == 72 { CallbackType::ExprIndex } else if i == 73 { CallbackType::ExprLet } else if i == 74 { CallbackType::ExprLit } else if i == 75 { CallbackType::ExprLoop } else if i == 76 { CallbackType::ExprMacro } else if i == 77 { CallbackType::ExprMatch } else if i == 78 { CallbackType::ExprMethodCall } else if i == 79 { CallbackType::ExprParen } else if i == 80 { CallbackType::ExprPath } else if i == 81 { CallbackType::ExprRange } else if i == 82 { CallbackType::ExprReference } else if i == 83 { CallbackType::ExprRepeat } else if i == 84 { CallbackType::ExprReturn } else if i == 85 { CallbackType::ExprStruct } else if i == 86 { CallbackType::ExprTry } else if i == 87 { CallbackType::ExprTryBlock } else if i == 88 { CallbackType::ExprTuple } else if i == 89 { CallbackType::ExprType } else if i == 90 { CallbackType::ExprUnary } else if i == 91 { CallbackType::ExprUnsafe } else if i == 92 { CallbackType::ExprWhile } else if i == 93 { CallbackType::ExprYield } else if i == 94 { CallbackType::Arm } else if i == 95 { CallbackType::Lit } else if i == 96 { CallbackType::LitStr } else if i == 97 { CallbackType::LitByteStr } else if i == 98 { CallbackType::LitByte } else if i == 99 { CallbackType::LitChar } else if i == 100 { CallbackType::LitInt } else if i == 101 { CallbackType::LitFloat } else if i == 102 { CallbackType::LitBool } else if i == 103 { CallbackType::FieldValue } else { CallbackType::Verbatim }
}

/// The kind standing at a given catalog position.
pub fn kind_at(i: usize) -> (r: CallbackType)
    requires
        i < KIND_COUNT,
    ensures
        r == kind_at_spec(i as int),
{
    match i {
        0 => CallbackType::File,
        1 => CallbackType::Item,
        2 => CallbackType::ItemConst,
        3 => CallbackType::ItemEnum,
        4 => CallbackType::ItemExternCrate,
        5 => CallbackType::ItemFn,
        6 => CallbackType::ItemForeignMod,
        7 => CallbackType::ItemImpl,
        8 => CallbackType::ItemMacro,
        9 => CallbackType::ItemMacro2,
        10 => CallbackType::ItemMod,
        11 => CallbackType::ItemStatic,
        12 => CallbackType::ItemStruct,
        13 => CallbackType::ItemTrait,
        14 => CallbackType::ItemTraitAlias,
        15 => CallbackType::ItemType,
        16 => CallbackType::ItemUnion,
        17 => CallbackType::ItemUse,
        18 => CallbackType::Variant,
        19 => CallbackType::ForeignItem,
        20 => CallbackType::ForeignItemFn,
        21 => CallbackType::ForeignItemStatic,
        22 => CallbackType::ForeignItemType,
        23 => CallbackType::ForeignItemMacro,
        24 => CallbackType::ImplItem,
        25 => CallbackType::ImplItemConst,
        26 => CallbackType::ImplItemMethod,
        27 => CallbackType::ImplItemType,
        28 => CallbackType::ImplItemMacro,
        29 => CallbackType::TraitItem,
        30 => CallbackType::TraitItemConst,
        31 => CallbackType::TraitItemMethod,
        32 => CallbackType::TraitItemType,
        33 => CallbackType::TraitItemMacro,
        34 => CallbackType::Block,
        35 => CallbackType::Stmts,
        36 => CallbackType::Stmt,
        37 => CallbackType::Local,
        38 => CallbackType::Pat,
        39 => CallbackType::PatBox,
        40 => CallbackType::PatIdent,
        41 => CallbackType::PatLit,
        42 => CallbackType::PatMacro,
        43 => CallbackType::PatOr,
        44 => CallbackType::PatPath,
        45 => CallbackType::PatRange,
        46 => CallbackType::PatReference,
        47 => CallbackType::PatRest,
        48 => CallbackType::PatSlice,
        49 => CallbackType::PatStruct,
        50 => CallbackType::PatTuple,
        51 => CallbackType::PatTupleStruct,
        52 => CallbackType::PatType,
        53 => CallbackType::PatWild,
        54 => CallbackType::Expr,
        55 => CallbackType::ExprArray,
        56 => CallbackType::ExprAssign,
        57 => CallbackType::ExprAssignOp,
        58 => CallbackType::ExprAsync,
        59 => CallbackType::ExprAwait,
        60 => CallbackType::ExprBinary,
        61 => CallbackType::ExprBlock,
        62 => CallbackType::ExprBox,
        63 => CallbackType::ExprBreak,
        64 => CallbackType::ExprCall,
        65 => CallbackType::ExprCast,
        66 => CallbackType::ExprClosure,
        67 => CallbackType::ExprContinue,
        68 => CallbackType::ExprField,
        69 => CallbackType::ExprForLoop,
        70 => CallbackType::ExprGroup,
        71 => CallbackType::ExprIf,
        72 => CallbackType::ExprIndex,
        73 => CallbackType::ExprLet,
        74 => CallbackType::ExprLit,
        75 => CallbackType::ExprLoop,
        76 => CallbackType::ExprMacro,
        77 => CallbackType::ExprMatch,
        78 => CallbackType::ExprMethodCall,
        79 => CallbackType::ExprParen,
        80 => CallbackType::ExprPath,
        81 => CallbackType::ExprRange,
        82 => CallbackType::ExprReference,
        83 => CallbackType::ExprRepeat,
        84 => CallbackType::ExprReturn,
        85 => CallbackType::ExprStruct,
        86 => CallbackType::ExprTry,
        87 => CallbackType::ExprTryBlock,
        88 => CallbackType::ExprTuple,
        89 => CallbackType::ExprType,
        90 => CallbackType::ExprUnary,
        91 => CallbackType::ExprUnsafe,
        92 => CallbackType::ExprWhile,
        93 => CallbackType::ExprYield,
        94 => CallbackType::Arm,
        95 => CallbackType::Lit,
        96 => CallbackType::LitStr,
        97 => CallbackType::LitByteStr,
        98 => CallbackType::LitByte,
        99 => CallbackType::LitChar,
        100 => CallbackType::LitInt,
        101 => CallbackType::LitFloat,
        102 => CallbackType::LitBool,
        103 => CallbackType::FieldValue,
        _ => CallbackType::Verbatim,
    }
}

/// A kind is recovered from its catalog position: positions are distinct.
pub proof fn lemma_kind_at_index()
    ensures
        forall|k: CallbackType| #[trigger] kind_at_spec(k.index_spec()) == k,
{
}

} // verus!
