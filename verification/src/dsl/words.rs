//! Byte spellings of the words of the declaration grammar.

use vstd::prelude::*;

verus! {

/// Returns whether two byte strings are equal.
pub fn same_bytes(left: &[u8], right: &[u8]) -> (same: bool)
    ensures
        same == (left@ == right@),
{
    if left.len() != right.len() {
        return false;
    }
    let mut index: usize = 0;
    while index < left.len()
        invariant
            index <= left@.len(),
            left@.len() == right@.len(),
            forall|k: int| 0 <= k < index ==> left@[k] == right@[k],
        decreases left@.len() - index,
    {
        if left[index] != right[index] {
            return false;
        }
        index = index + 1;
    }
    proof {
        assert(left@ =~= right@);
    }
    true
}

/// The word `_`.
pub open spec fn word_underscore() -> Seq<u8> {
    seq![95u8]
}

/// Returns whether `text` is the word `_`.
pub fn is_word_underscore(text: &[u8]) -> (found: bool)
    ensures
        found == (text@ == word_underscore()),
{
    let word: [u8; 1] = [95];
    assert(word@ =~= word_underscore());
    same_bytes(text, word.as_slice())
}

/// The word `abstract`.
pub open spec fn word_abstract() -> Seq<u8> {
    seq![97u8, 98u8, 115u8, 116u8, 114u8, 97u8, 99u8, 116u8]
}

/// Returns whether `text` is the word `abstract`.
pub fn is_word_abstract(text: &[u8]) -> (found: bool)
    ensures
        found == (text@ == word_abstract()),
{
    let word: [u8; 8] = [97, 98, 115, 116, 114, 97, 99, 116];
    same_bytes(text, word.as_slice())
}

/// The word `as`.
pub open spec fn word_as() -> Seq<u8> {
    seq![97u8, 115u8]
}

/// Returns whether `text` is the word `as`.
pub fn is_word_as(text: &[u8]) -> (found: bool)
    ensures
        found == (text@ == word_as()),
{
    let word: [u8; 2] = [97, 115];
    same_bytes(text, word.as_slice())
}

/// The word `async`.
pub open spec fn word_async() -> Seq<u8> {
    seq![97u8, 115u8, 121u8, 110u8, 99u8]
}

/// Returns whether `text` is the word `async`.
pub fn is_word_async(text: &[u8]) -> (found: bool)
    ensures
        found == (text@ == word_async()),
{
    let word: [u8; 5] = [97, 115, 121, 110, 99];
    same_bytes(text, word.as_slice())
}

/// The word `await`.
pub open spec fn word_await() -> Seq<u8> {
    seq![97u8, 119u8, 97u8, 105u8, 116u8]
}

/// Returns whether `text` is the word `await`.
pub fn is_word_await(text: &[u8]) -> (found: bool)
    ensures
        found == (text@ == word_await()),
{
    let word: [u8; 5] = [97, 119, 97, 105, 116];
    same_bytes(text, word.as_slice())
}

/// The word `become`.
pub open spec fn word_become() -> Seq<u8> {
    seq![98u8, 101u8, 99u8, 111u8, 109u8, 101u8]
}

/// Returns whether `text` is the word `become`.
pub fn is_word_become(text: &[u8]) -> (found: bool)
    ensures
        found == (text@ == word_become()),
{
    let word: [u8; 6] = [98, 101, 99, 111, 109, 101];
    same_bytes(text, word.as_slice())
}

/// The word `box`.
pub open spec fn word_box() -> Seq<u8> {
    seq![98u8, 111u8, 120u8]
}

/// Returns whether `text` is the word `box`.
pub fn is_word_box(text: &[u8]) -> (found: bool)
    ensures
        found == (text@ == word_box()),
{
    let word: [u8; 3] = [98, 111, 120];
    same_bytes(text, word.as_slice())
}

/// The word `break`.
pub open spec fn word_break() -> Seq<u8> {
    seq![98u8, 114u8, 101u8, 97u8, 107u8]
}

/// Returns whether `text` is the word `break`.
pub fn is_word_break(text: &[u8]) -> (found: bool)
    ensures
        found == (text@ == word_break()),
{
    let word: [u8; 5] = [98, 114, 101, 97, 107];
    same_bytes(text, word.as_slice())
}

/// The word `const`.
pub open spec fn word_const() -> Seq<u8> {
    seq![99u8, 111u8, 110u8, 115u8, 116u8]
}

/// Returns whether `text` is the word `const`.
pub fn is_word_const(text: &[u8]) -> (found: bool)
    ensures
        found == (text@ == word_const()),
{
    let word: [u8; 5] = [99, 111, 110, 115, 116];
    same_bytes(text, word.as_slice())
}

/// The word `continue`.
pub open spec fn word_continue() -> Seq<u8> {
    seq![99u8, 111u8, 110u8, 116u8, 105u8, 110u8, 117u8, 101u8]
}

/// Returns whether `text` is the word `continue`.
pub fn is_word_continue(text: &[u8]) -> (found: bool)
    ensures
        found == (text@ == word_continue()),
{
    let word: [u8; 8] = [99, 111, 110, 116, 105, 110, 117, 101];
    same_bytes(text, word.as_slice())
}

/// The word `crate`.
pub open spec fn word_crate() -> Seq<u8> {
    seq![99u8, 114u8, 97u8, 116u8, 101u8]
}

/// Returns whether `text` is the word `crate`.
pub fn is_word_crate(text: &[u8]) -> (found: bool)
    ensures
        found == (text@ == word_crate()),
{
    let word: [u8; 5] = [99, 114, 97, 116, 101];
    same_bytes(text, word.as_slice())
}

/// The word `do`.
pub open spec fn word_do() -> Seq<u8> {
    seq![100u8, 111u8]
}

/// Returns whether `text` is the word `do`.
pub fn is_word_do(text: &[u8]) -> (found: bool)
    ensures
        found == (text@ == word_do()),
{
    let word: [u8; 2] = [100, 111];
    same_bytes(text, word.as_slice())
}

/// The word `dyn`.
pub open spec fn word_dyn() -> Seq<u8> {
    seq![100u8, 121u8, 110u8]
}

/// Returns whether `text` is the word `dyn`.
pub fn is_word_dyn(text: &[u8]) -> (found: bool)
    ensures
        found == (text@ == word_dyn()),
{
    let word: [u8; 3] = [100, 121, 110];
    same_bytes(text, word.as_slice())
}

/// The word `else`.
pub open spec fn word_else() -> Seq<u8> {
    seq![101u8, 108u8, 115u8, 101u8]
}

/// Returns whether `text` is the word `else`.
pub fn is_word_else(text: &[u8]) -> (found: bool)
    ensures
        found == (text@ == word_else()),
{
    let word: [u8; 4] = [101, 108, 115, 101];
    same_bytes(text, word.as_slice())
}

/// The word `enum`.
pub open spec fn word_enum() -> Seq<u8> {
    seq![101u8, 110u8, 117u8, 109u8]
}

/// Returns whether `text` is the word `enum`.
pub fn is_word_enum(text: &[u8]) -> (found: bool)
    ensures
        found == (text@ == word_enum()),
{
    let word: [u8; 4] = [101, 110, 117, 109];
    same_bytes(text, word.as_slice())
}

/// The word `extern`.
pub open spec fn word_extern() -> Seq<u8> {
    seq![101u8, 120u8, 116u8, 101u8, 114u8, 110u8]
}

/// Returns whether `text` is the word `extern`.
pub fn is_word_extern(text: &[u8]) -> (found: bool)
    ensures
        found == (text@ == word_extern()),
{
    let word: [u8; 6] = [101, 120, 116, 101, 114, 110];
    same_bytes(text, word.as_slice())
}

/// The word `false`.
pub open spec fn word_false() -> Seq<u8> {
    seq![102u8, 97u8, 108u8, 115u8, 101u8]
}

/// Returns whether `text` is the word `false`.
pub fn is_word_false(text: &[u8]) -> (found: bool)
    ensures
        found == (text@ == word_false()),
{
    let word: [u8; 5] = [102, 97, 108, 115, 101];
    same_bytes(text, word.as_slice())
}

/// The word `final`.
pub open spec fn word_final() -> Seq<u8> {
    seq![102u8, 105u8, 110u8, 97u8, 108u8]
}

/// Returns whether `text` is the word `final`.
pub fn is_word_final(text: &[u8]) -> (found: bool)
    ensures
        found == (text@ == word_final()),
{
    let word: [u8; 5] = [102, 105, 110, 97, 108];
    same_bytes(text, word.as_slice())
}

/// The word `fn`.
pub open spec fn word_fn() -> Seq<u8> {
    seq![102u8, 110u8]
}

/// Returns whether `text` is the word `fn`.
pub fn is_word_fn(text: &[u8]) -> (found: bool)
    ensures
        found == (text@ == word_fn()),
{
    let word: [u8; 2] = [102, 110];
    same_bytes(text, word.as_slice())
}

/// The word `for`.
pub open spec fn word_for() -> Seq<u8> {
    seq![102u8, 111u8, 114u8]
}

/// Returns whether `text` is the word `for`.
pub fn is_word_for(text: &[u8]) -> (found: bool)
    ensures
        found == (text@ == word_for()),
{
    let word: [u8; 3] = [102, 111, 114];
    same_bytes(text, word.as_slice())
}

/// The word `if`.
pub open spec fn word_if() -> Seq<u8> {
    seq![105u8, 102u8]
}

/// Returns whether `text` is the word `if`.
pub fn is_word_if(text: &[u8]) -> (found: bool)
    ensures
        found == (text@ == word_if()),
{
    let word: [u8; 2] = [105, 102];
    same_bytes(text, word.as_slice())
}

/// The word `impl`.
pub open spec fn word_impl() -> Seq<u8> {
    seq![105u8, 109u8, 112u8, 108u8]
}

/// Returns whether `text` is the word `impl`.
pub fn is_word_impl(text: &[u8]) -> (found: bool)
    ensures
        found == (text@ == word_impl()),
{
    let word: [u8; 4] = [105, 109, 112, 108];
    same_bytes(text, word.as_slice())
}

/// The word `in`.
pub open spec fn word_in() -> Seq<u8> {
    seq![105u8, 110u8]
}

/// Returns whether `text` is the word `in`.
pub fn is_word_in(text: &[u8]) -> (found: bool)
    ensures
        found == (text@ == word_in()),
{
    let word: [u8; 2] = [105, 110];
    same_bytes(text, word.as_slice())
}

/// The word `let`.
pub open spec fn word_let() -> Seq<u8> {
    seq![108u8, 101u8, 116u8]
}

/// Returns whether `text` is the word `let`.
pub fn is_word_let(text: &[u8]) -> (found: bool)
    ensures
        found == (text@ == word_let()),
{
    let word: [u8; 3] = [108, 101, 116];
    same_bytes(text, word.as_slice())
}

/// The word `loop`.
pub open spec fn word_loop() -> Seq<u8> {
    seq![108u8, 111u8, 111u8, 112u8]
}

/// Returns whether `text` is the word `loop`.
pub fn is_word_loop(text: &[u8]) -> (found: bool)
    ensures
        found == (text@ == word_loop()),
{
    let word: [u8; 4] = [108, 111, 111, 112];
    same_bytes(text, word.as_slice())
}

/// The word `macro`.
pub open spec fn word_macro() -> Seq<u8> {
    seq![109u8, 97u8, 99u8, 114u8, 111u8]
}

/// Returns whether `text` is the word `macro`.
pub fn is_word_macro(text: &[u8]) -> (found: bool)
    ensures
        found == (text@ == word_macro()),
{
    let word: [u8; 5] = [109, 97, 99, 114, 111];
    same_bytes(text, word.as_slice())
}

/// The word `match`.
pub open spec fn word_match() -> Seq<u8> {
    seq![109u8, 97u8, 116u8, 99u8, 104u8]
}

/// Returns whether `text` is the word `match`.
pub fn is_word_match(text: &[u8]) -> (found: bool)
    ensures
        found == (text@ == word_match()),
{
    let word: [u8; 5] = [109, 97, 116, 99, 104];
    same_bytes(text, word.as_slice())
}

/// The word `mod`.
pub open spec fn word_mod() -> Seq<u8> {
    seq![109u8, 111u8, 100u8]
}

/// Returns whether `text` is the word `mod`.
pub fn is_word_mod(text: &[u8]) -> (found: bool)
    ensures
        found == (text@ == word_mod()),
{
    let word: [u8; 3] = [109, 111, 100];
    same_bytes(text, word.as_slice())
}

/// The word `move`.
pub open spec fn word_move() -> Seq<u8> {
    seq![109u8, 111u8, 118u8, 101u8]
}

/// Returns whether `text` is the word `move`.
pub fn is_word_move(text: &[u8]) -> (found: bool)
    ensures
        found == (text@ == word_move()),
{
    let word: [u8; 4] = [109, 111, 118, 101];
    same_bytes(text, word.as_slice())
}

/// The word `mut`.
pub open spec fn word_mut() -> Seq<u8> {
    seq![109u8, 117u8, 116u8]
}

/// Returns whether `text` is the word `mut`.
pub fn is_word_mut(text: &[u8]) -> (found: bool)
    ensures
        found == (text@ == word_mut()),
{
    let word: [u8; 3] = [109, 117, 116];
    same_bytes(text, word.as_slice())
}

/// The word `override`.
pub open spec fn word_override() -> Seq<u8> {
    seq![111u8, 118u8, 101u8, 114u8, 114u8, 105u8, 100u8, 101u8]
}

/// Returns whether `text` is the word `override`.
pub fn is_word_override(text: &[u8]) -> (found: bool)
    ensures
        found == (text@ == word_override()),
{
    let word: [u8; 8] = [111, 118, 101, 114, 114, 105, 100, 101];
    same_bytes(text, word.as_slice())
}

/// The word `priv`.
pub open spec fn word_priv() -> Seq<u8> {
    seq![112u8, 114u8, 105u8, 118u8]
}

/// Returns whether `text` is the word `priv`.
pub fn is_word_priv(text: &[u8]) -> (found: bool)
    ensures
        found == (text@ == word_priv()),
{
    let word: [u8; 4] = [112, 114, 105, 118];
    same_bytes(text, word.as_slice())
}

/// The word `pub`.
pub open spec fn word_pub() -> Seq<u8> {
    seq![112u8, 117u8, 98u8]
}

/// Returns whether `text` is the word `pub`.
pub fn is_word_pub(text: &[u8]) -> (found: bool)
    ensures
        found == (text@ == word_pub()),
{
    let word: [u8; 3] = [112, 117, 98];
    same_bytes(text, word.as_slice())
}

/// The word `ref`.
pub open spec fn word_ref() -> Seq<u8> {
    seq![114u8, 101u8, 102u8]
}

/// Returns whether `text` is the word `ref`.
pub fn is_word_ref(text: &[u8]) -> (found: bool)
    ensures
        found == (text@ == word_ref()),
{
    let word: [u8; 3] = [114, 101, 102];
    same_bytes(text, word.as_slice())
}

/// The word `return`.
pub open spec fn word_return() -> Seq<u8> {
    seq![114u8, 101u8, 116u8, 117u8, 114u8, 110u8]
}

/// Returns whether `text` is the word `return`.
pub fn is_word_return(text: &[u8]) -> (found: bool)
    ensures
        found == (text@ == word_return()),
{
    let word: [u8; 6] = [114, 101, 116, 117, 114, 110];
    same_bytes(text, word.as_slice())
}

/// The word `Self`.
pub open spec fn word_self_type() -> Seq<u8> {
    seq![83u8, 101u8, 108u8, 102u8]
}

/// Returns whether `text` is the word `Self`.
pub fn is_word_self_type(text: &[u8]) -> (found: bool)
    ensures
        found == (text@ == word_self_type()),
{
    let word: [u8; 4] = [83, 101, 108, 102];
    same_bytes(text, word.as_slice())
}

/// The word `self`.
pub open spec fn word_self() -> Seq<u8> {
    seq![115u8, 101u8, 108u8, 102u8]
}

/// Returns whether `text` is the word `self`.
pub fn is_word_self(text: &[u8]) -> (found: bool)
    ensures
        found == (text@ == word_self()),
{
    let word: [u8; 4] = [115, 101, 108, 102];
    same_bytes(text, word.as_slice())
}

/// The word `static`.
pub open spec fn word_static() -> Seq<u8> {
    seq![115u8, 116u8, 97u8, 116u8, 105u8, 99u8]
}

/// Returns whether `text` is the word `static`.
pub fn is_word_static(text: &[u8]) -> (found: bool)
    ensures
        found == (text@ == word_static()),
{
    let word: [u8; 6] = [115, 116, 97, 116, 105, 99];
    same_bytes(text, word.as_slice())
}

/// The word `struct`.
pub open spec fn word_struct() -> Seq<u8> {
    seq![115u8, 116u8, 114u8, 117u8, 99u8, 116u8]
}

/// Returns whether `text` is the word `struct`.
pub fn is_word_struct(text: &[u8]) -> (found: bool)
    ensures
        found == (text@ == word_struct()),
{
    let word: [u8; 6] = [115, 116, 114, 117, 99, 116];
    same_bytes(text, word.as_slice())
}

/// The word `super`.
pub open spec fn word_super() -> Seq<u8> {
    seq![115u8, 117u8, 112u8, 101u8, 114u8]
}

/// Returns whether `text` is the word `super`.
pub fn is_word_super(text: &[u8]) -> (found: bool)
    ensures
        found == (text@ == word_super()),
{
    let word: [u8; 5] = [115, 117, 112, 101, 114];
    same_bytes(text, word.as_slice())
}

/// The word `trait`.
pub open spec fn word_trait() -> Seq<u8> {
    seq![116u8, 114u8, 97u8, 105u8, 116u8]
}

/// Returns whether `text` is the word `trait`.
pub fn is_word_trait(text: &[u8]) -> (found: bool)
    ensures
        found == (text@ == word_trait()),
{
    let word: [u8; 5] = [116, 114, 97, 105, 116];
    same_bytes(text, word.as_slice())
}

/// The word `true`.
pub open spec fn word_true() -> Seq<u8> {
    seq![116u8, 114u8, 117u8, 101u8]
}

/// Returns whether `text` is the word `true`.
pub fn is_word_true(text: &[u8]) -> (found: bool)
    ensures
        found == (text@ == word_true()),
{
    let word: [u8; 4] = [116, 114, 117, 101];
    same_bytes(text, word.as_slice())
}

/// The word `try`.
pub open spec fn word_try() -> Seq<u8> {
    seq![116u8, 114u8, 121u8]
}

/// Returns whether `text` is the word `try`.
pub fn is_word_try(text: &[u8]) -> (found: bool)
    ensures
        found == (text@ == word_try()),
{
    let word: [u8; 3] = [116, 114, 121];
    same_bytes(text, word.as_slice())
}

/// The word `type`.
pub open spec fn word_type() -> Seq<u8> {
    seq![116u8, 121u8, 112u8, 101u8]
}

/// Returns whether `text` is the word `type`.
pub fn is_word_type(text: &[u8]) -> (found: bool)
    ensures
        found == (text@ == word_type()),
{
    let word: [u8; 4] = [116, 121, 112, 101];
    same_bytes(text, word.as_slice())
}

/// The word `typeof`.
pub open spec fn word_typeof() -> Seq<u8> {
    seq![116u8, 121u8, 112u8, 101u8, 111u8, 102u8]
}

/// Returns whether `text` is the word `typeof`.
pub fn is_word_typeof(text: &[u8]) -> (found: bool)
    ensures
        found == (text@ == word_typeof()),
{
    let word: [u8; 6] = [116, 121, 112, 101, 111, 102];
    same_bytes(text, word.as_slice())
}

/// The word `unsafe`.
pub open spec fn word_unsafe() -> Seq<u8> {
    seq![117u8, 110u8, 115u8, 97u8, 102u8, 101u8]
}

/// Returns whether `text` is the word `unsafe`.
pub fn is_word_unsafe(text: &[u8]) -> (found: bool)
    ensures
        found == (text@ == word_unsafe()),
{
    let word: [u8; 6] = [117, 110, 115, 97, 102, 101];
    same_bytes(text, word.as_slice())
}

/// The word `unsized`.
pub open spec fn word_unsized() -> Seq<u8> {
    seq![117u8, 110u8, 115u8, 105u8, 122u8, 101u8, 100u8]
}

/// Returns whether `text` is the word `unsized`.
pub fn is_word_unsized(text: &[u8]) -> (found: bool)
    ensures
        found == (text@ == word_unsized()),
{
    let word: [u8; 7] = [117, 110, 115, 105, 122, 101, 100];
    same_bytes(text, word.as_slice())
}

/// The word `use`.
pub open spec fn word_use() -> Seq<u8> {
    seq![117u8, 115u8, 101u8]
}

/// Returns whether `text` is the word `use`.
pub fn is_word_use(text: &[u8]) -> (found: bool)
    ensures
        found == (text@ == word_use()),
{
    let word: [u8; 3] = [117, 115, 101];
    same_bytes(text, word.as_slice())
}

/// The word `virtual`.
pub open spec fn word_virtual() -> Seq<u8> {
    seq![118u8, 105u8, 114u8, 116u8, 117u8, 97u8, 108u8]
}

/// Returns whether `text` is the word `virtual`.
pub fn is_word_virtual(text: &[u8]) -> (found: bool)
    ensures
        found == (text@ == word_virtual()),
{
    let word: [u8; 7] = [118, 105, 114, 116, 117, 97, 108];
    same_bytes(text, word.as_slice())
}

/// The word `where`.
pub open spec fn word_where() -> Seq<u8> {
    seq![119u8, 104u8, 101u8, 114u8, 101u8]
}

/// Returns whether `text` is the word `where`.
pub fn is_word_where(text: &[u8]) -> (found: bool)
    ensures
        found == (text@ == word_where()),
{
    let word: [u8; 5] = [119, 104, 101, 114, 101];
    same_bytes(text, word.as_slice())
}

/// The word `while`.
pub open spec fn word_while() -> Seq<u8> {
    seq![119u8, 104u8, 105u8, 108u8, 101u8]
}

/// Returns whether `text` is the word `while`.
pub fn is_word_while(text: &[u8]) -> (found: bool)
    ensures
        found == (text@ == word_while()),
{
    let word: [u8; 5] = [119, 104, 105, 108, 101];
    same_bytes(text, word.as_slice())
}

/// The word `yield`.
pub open spec fn word_yield() -> Seq<u8> {
    seq![121u8, 105u8, 101u8, 108u8, 100u8]
}

/// Returns whether `text` is the word `yield`.
pub fn is_word_yield(text: &[u8]) -> (found: bool)
    ensures
        found == (text@ == word_yield()),
{
    let word: [u8; 5] = [121, 105, 101, 108, 100];
    same_bytes(text, word.as_slice())
}

/// The word `name`.
pub open spec fn word_name() -> Seq<u8> {
    seq![110u8, 97u8, 109u8, 101u8]
}

/// Returns whether `text` is the word `name`.
pub fn is_word_name(text: &[u8]) -> (found: bool)
    ensures
        found == (text@ == word_name()),
{
    let word: [u8; 4] = [110, 97, 109, 101];
    same_bytes(text, word.as_slice())
}

/// The word `templates`.
pub open spec fn word_templates() -> Seq<u8> {
    seq![116u8, 101u8, 109u8, 112u8, 108u8, 97u8, 116u8, 101u8, 115u8]
}

/// Returns whether `text` is the word `templates`.
pub fn is_word_templates(text: &[u8]) -> (found: bool)
    ensures
        found == (text@ == word_templates()),
{
    let word: [u8; 9] = [116, 101, 109, 112, 108, 97, 116, 101, 115];
    same_bytes(text, word.as_slice())
}

/// The word `inputs`.
pub open spec fn word_inputs() -> Seq<u8> {
    seq![105u8, 110u8, 112u8, 117u8, 116u8, 115u8]
}

/// Returns whether `text` is the word `inputs`.
pub fn is_word_inputs(text: &[u8]) -> (found: bool)
    ensures
        found == (text@ == word_inputs()),
{
    let word: [u8; 6] = [105, 110, 112, 117, 116, 115];
    same_bytes(text, word.as_slice())
}

/// The word `outputs`.
pub open spec fn word_outputs() -> Seq<u8> {
    seq![111u8, 117u8, 116u8, 112u8, 117u8, 116u8, 115u8]
}

/// Returns whether `text` is the word `outputs`.
pub fn is_word_outputs(text: &[u8]) -> (found: bool)
    ensures
        found == (text@ == word_outputs()),
{
    let word: [u8; 7] = [111, 117, 116, 112, 117, 116, 115];
    same_bytes(text, word.as_slice())
}

/// The word `source`.
pub open spec fn word_source() -> Seq<u8> {
    seq![115u8, 111u8, 117u8, 114u8, 99u8, 101u8]
}

/// Returns whether `text` is the word `source`.
pub fn is_word_source(text: &[u8]) -> (found: bool)
    ensures
        found == (text@ == word_source()),
{
    let word: [u8; 6] = [115, 111, 117, 114, 99, 101];
    same_bytes(text, word.as_slice())
}

/// The word `header`.
pub open spec fn word_header() -> Seq<u8> {
    seq![104u8, 101u8, 97u8, 100u8, 101u8, 114u8]
}

/// Returns whether `text` is the word `header`.
pub fn is_word_header(text: &[u8]) -> (found: bool)
    ensures
        found == (text@ == word_header()),
{
    let word: [u8; 6] = [104, 101, 97, 100, 101, 114];
    same_bytes(text, word.as_slice())
}

/// The word `row_contiguous`.
pub open spec fn word_row_contiguous() -> Seq<u8> {
    seq![114u8, 111u8, 119u8, 95u8, 99u8, 111u8, 110u8, 116u8, 105u8, 103u8, 117u8, 111u8, 117u8, 115u8]
}

/// Returns whether `text` is the word `row_contiguous`.
pub fn is_word_row_contiguous(text: &[u8]) -> (found: bool)
    ensures
        found == (text@ == word_row_contiguous()),
{
    let word: [u8; 14] = [114, 111, 119, 95, 99, 111, 110, 116, 105, 103, 117, 111, 117, 115];
    same_bytes(text, word.as_slice())
}

/// The word `atomic_outputs`.
pub open spec fn word_atomic_outputs() -> Seq<u8> {
    seq![97u8, 116u8, 111u8, 109u8, 105u8, 99u8, 95u8, 111u8, 117u8, 116u8, 112u8, 117u8, 116u8, 115u8]
}

/// Returns whether `text` is the word `atomic_outputs`.
pub fn is_word_atomic_outputs(text: &[u8]) -> (found: bool)
    ensures
        found == (text@ == word_atomic_outputs()),
{
    let word: [u8; 14] = [97, 116, 111, 109, 105, 99, 95, 111, 117, 116, 112, 117, 116, 115];
    same_bytes(text, word.as_slice())
}

/// The word `dtype`.
pub open spec fn word_dtype() -> Seq<u8> {
    seq![100u8, 116u8, 121u8, 112u8, 101u8]
}

/// Returns whether `text` is the word `dtype`.
pub fn is_word_dtype(text: &[u8]) -> (found: bool)
    ensures
        found == (text@ == word_dtype()),
{
    let word: [u8; 5] = [100, 116, 121, 112, 101];
    same_bytes(text, word.as_slice())
}

/// The word `int`.
pub open spec fn word_int() -> Seq<u8> {
    seq![105u8, 110u8, 116u8]
}

/// Returns whether `text` is the word `int`.
pub fn is_word_int(text: &[u8]) -> (found: bool)
    ensures
        found == (text@ == word_int()),
{
    let word: [u8; 3] = [105, 110, 116];
    same_bytes(text, word.as_slice())
}

/// The word `bool`.
pub open spec fn word_bool() -> Seq<u8> {
    seq![98u8, 111u8, 111u8, 108u8]
}

/// Returns whether `text` is the word `bool`.
pub fn is_word_bool(text: &[u8]) -> (found: bool)
    ensures
        found == (text@ == word_bool()),
{
    let word: [u8; 4] = [98, 111, 111, 108];
    same_bytes(text, word.as_slice())
}

/// The word `scalar`.
pub open spec fn word_scalar() -> Seq<u8> {
    seq![115u8, 99u8, 97u8, 108u8, 97u8, 114u8]
}

/// Returns whether `text` is the word `scalar`.
pub fn is_word_scalar(text: &[u8]) -> (found: bool)
    ensures
        found == (text@ == word_scalar()),
{
    let word: [u8; 6] = [115, 99, 97, 108, 97, 114];
    same_bytes(text, word.as_slice())
}

/// The word `inline`.
pub open spec fn word_inline() -> Seq<u8> {
    seq![105u8, 110u8, 108u8, 105u8, 110u8, 101u8]
}

/// Returns whether `text` is the word `inline`.
pub fn is_word_inline(text: &[u8]) -> (found: bool)
    ensures
        found == (text@ == word_inline()),
{
    let word: [u8; 6] = [105, 110, 108, 105, 110, 101];
    same_bytes(text, word.as_slice())
}

/// The word `file`.
pub open spec fn word_file() -> Seq<u8> {
    seq![102u8, 105u8, 108u8, 101u8]
}

/// Returns whether `text` is the word `file`.
pub fn is_word_file(text: &[u8]) -> (found: bool)
    ensures
        found == (text@ == word_file()),
{
    let word: [u8; 4] = [102, 105, 108, 101];
    same_bytes(text, word.as_slice())
}

/// The word `u32`.
pub open spec fn word_u32() -> Seq<u8> {
    seq![117u8, 51u8, 50u8]
}

/// Returns whether `text` is the word `u32`.
pub fn is_word_u32(text: &[u8]) -> (found: bool)
    ensures
        found == (text@ == word_u32()),
{
    let word: [u8; 3] = [117, 51, 50];
    same_bytes(text, word.as_slice())
}

/// The word `i32`.
pub open spec fn word_i32() -> Seq<u8> {
    seq![105u8, 51u8, 50u8]
}

/// Returns whether `text` is the word `i32`.
pub fn is_word_i32(text: &[u8]) -> (found: bool)
    ensures
        found == (text@ == word_i32()),
{
    let word: [u8; 3] = [105, 51, 50];
    same_bytes(text, word.as_slice())
}

/// The word `f16`.
pub open spec fn word_f16() -> Seq<u8> {
    seq![102u8, 49u8, 54u8]
}

/// Returns whether `text` is the word `f16`.
pub fn is_word_f16(text: &[u8]) -> (found: bool)
    ensures
        found == (text@ == word_f16()),
{
    let word: [u8; 3] = [102, 49, 54];
    same_bytes(text, word.as_slice())
}

/// The word `bf16`.
pub open spec fn word_bf16() -> Seq<u8> {
    seq![98u8, 102u8, 49u8, 54u8]
}

/// Returns whether `text` is the word `bf16`.
pub fn is_word_bf16(text: &[u8]) -> (found: bool)
    ensures
        found == (text@ == word_bf16()),
{
    let word: [u8; 4] = [98, 102, 49, 54];
    same_bytes(text, word.as_slice())
}

/// The word `f32`.
pub open spec fn word_f32() -> Seq<u8> {
    seq![102u8, 51u8, 50u8]
}

/// Returns whether `text` is the word `f32`.
pub fn is_word_f32(text: &[u8]) -> (found: bool)
    ensures
        found == (text@ == word_f32()),
{
    let word: [u8; 3] = [102, 51, 50];
    same_bytes(text, word.as_slice())
}

/// The word `float`.
pub open spec fn word_float() -> Seq<u8> {
    seq![102u8, 108u8, 111u8, 97u8, 116u8]
}

/// Returns whether `text` is the word `float`.
pub fn is_word_float(text: &[u8]) -> (found: bool)
    ensures
        found == (text@ == word_float()),
{
    let word: [u8; 5] = [102, 108, 111, 97, 116];
    same_bytes(text, word.as_slice())
}

/// The word `shapeless`.
pub open spec fn word_shapeless() -> Seq<u8> {
    seq![115u8, 104u8, 97u8, 112u8, 101u8, 108u8, 101u8, 115u8, 115u8]
}

/// Returns whether `text` is the word `shapeless`.
pub fn is_word_shapeless(text: &[u8]) -> (found: bool)
    ensures
        found == (text@ == word_shapeless()),
{
    let word: [u8; 9] = [115, 104, 97, 112, 101, 108, 101, 115, 115];
    same_bytes(text, word.as_slice())
}

/// Whether `text` is a word that the grammar does not accept as a name:
/// a Rust keyword, reserved word or `_`.
pub open spec fn is_keyword(text: Seq<u8>) -> bool {
    text == word_underscore()
        || text == word_abstract()
        || text == word_as()
        || text == word_async()
        || text == word_await()
        || text == word_become()
        || text == word_box()
        || text == word_break()
        || text == word_const()
        || text == word_continue()
        || text == word_crate()
        || text == word_do()
        || text == word_dyn()
        || text == word_else()
        || text == word_enum()
        || text == word_extern()
        || text == word_false()
        || text == word_final()
        || text == word_fn()
        || text == word_for()
        || text == word_if()
        || text == word_impl()
        || text == word_in()
        || text == word_let()
        || text == word_loop()
        || text == word_macro()
        || text == word_match()
        || text == word_mod()
        || text == word_move()
        || text == word_mut()
        || text == word_override()
        || text == word_priv()
        || text == word_pub()
        || text == word_ref()
        || text == word_return()
        || text == word_self_type()
        || text == word_self()
        || text == word_static()
        || text == word_struct()
        || text == word_super()
        || text == word_trait()
        || text == word_true()
        || text == word_try()
        || text == word_type()
        || text == word_typeof()
        || text == word_unsafe()
        || text == word_unsized()
        || text == word_use()
        || text == word_virtual()
        || text == word_where()
        || text == word_while()
        || text == word_yield()
}

/// Returns whether `text` is a Rust keyword, reserved word or `_`.
pub fn is_keyword_text(text: &[u8]) -> (found: bool)
    ensures
        found == is_keyword(text@),
{
    is_word_underscore(text)
        || is_word_abstract(text)
        || is_word_as(text)
        || is_word_async(text)
        || is_word_await(text)
        || is_word_become(text)
        || is_word_box(text)
        || is_word_break(text)
        || is_word_const(text)
        || is_word_continue(text)
        || is_word_crate(text)
        || is_word_do(text)
        || is_word_dyn(text)
        || is_word_else(text)
        || is_word_enum(text)
        || is_word_extern(text)
        || is_word_false(text)
        || is_word_final(text)
        || is_word_fn(text)
        || is_word_for(text)
        || is_word_if(text)
        || is_word_impl(text)
        || is_word_in(text)
        || is_word_let(text)
        || is_word_loop(text)
        || is_word_macro(text)
        || is_word_match(text)
        || is_word_mod(text)
        || is_word_move(text)
        || is_word_mut(text)
        || is_word_override(text)
        || is_word_priv(text)
        || is_word_pub(text)
        || is_word_ref(text)
        || is_word_return(text)
        || is_word_self_type(text)
        || is_word_self(text)
        || is_word_static(text)
        || is_word_struct(text)
        || is_word_super(text)
        || is_word_trait(text)
        || is_word_true(text)
        || is_word_try(text)
        || is_word_type(text)
        || is_word_typeof(text)
        || is_word_unsafe(text)
        || is_word_unsized(text)
        || is_word_use(text)
        || is_word_virtual(text)
        || is_word_where(text)
        || is_word_while(text)
        || is_word_yield(text)
}

} // verus!
