//! The boundaries between the sub-buckets of one octave, for each positive
//! schema.
use vstd::prelude::*;
use vstd::arithmetic::power2::{pow2, lemma2_to64};
use crate::float::{biased_exp, LARGEST_FRACTION};
use crate::search::{is_ascending, lemma_ascending_from_adjacent};

verus! {

/// A boundary table of a schema: 2^schema ascending fractions in [0.5, 1),
/// the first of them 0.5.
pub open spec fn is_bounds_table(schema: int, s: Seq<u64>) -> bool {
    &&& s.len() == pow2(schema as nat)
    &&& is_ascending(s)
    &&& s[0] == crate::float::HALF
    &&& forall|i: int| 0 <= i < s.len() ==> biased_exp(#[trigger] s[i]) == 1022
    &&& forall|i: int| 0 <= i < s.len() ==> #[trigger] s[i] < LARGEST_FRACTION
}

/// The boundaries for `schema`, from 1 to 8: entry `j` lies within a few
/// units in the last place of 2^(j / 2^schema - 1), the first being 0.5.
/// The entries were chosen so that a search among them agrees with exponent
/// decomposition, which the tests check around every entry; the proofs here
/// establish only that each table is a boundary table.
pub open spec fn bounds_table(schema: int) -> Seq<u64> {
    if schema == 1 {
        seq![
            0x3fe0000000000000, 0x3fe6a09e667f3bcd,
        ]
    } else if schema == 2 {
        seq![
            0x3fe0000000000000, 0x3fe306fe0a31b716, 0x3fe6a09e667f3bcd, 0x3feae89f995ad3ae,
        ]
    } else if schema == 3 {
        seq![
            0x3fe0000000000000, 0x3fe172b83c7d517c, 0x3fe306fe0a31b716, 0x3fe4bfdad5362a28,
            0x3fe6a09e667f3bcd, 0x3fe8ace5422aa0dc, 0x3feae89f995ad3ae, 0x3fed5818dcfba488,
        ]
    } else if schema == 4 {
        seq![
            0x3fe0000000000000, 0x3fe0b5586cf98910, 0x3fe172b83c7d517c, 0x3fe2387a6e756239,
            0x3fe306fe0a31b716, 0x3fe3dea64c123423, 0x3fe4bfdad5362a28, 0x3fe5ab07dd48542a,
            0x3fe6a09e667f3bcd, 0x3fe7a11473eb0188, 0x3fe8ace5422aa0dc, 0x3fe9c49182a3f091,
            0x3feae89f995ad3ae, 0x3fec199bdd85529d, 0x3fed5818dcfba488, 0x3feea4afa2a490da,
        ]
    } else if schema == 5 {
        seq![
            0x3fe0000000000000, 0x3fe059b0d3158575, 0x3fe0b5586cf98910, 0x3fe11301d0125b51,
            0x3fe172b83c7d517c, 0x3fe1d4873168b9ab, 0x3fe2387a6e756239, 0x3fe29e9df51fdee2,
            0x3fe306fe0a31b716, 0x3fe371a7373aa9cb, 0x3fe3dea64c123423, 0x3fe44e086061892e,
            0x3fe4bfdad5362a28, 0x3fe5342b569d4f83, 0x3fe5ab07dd48542a, 0x3fe6247eb03a5585,
            0x3fe6a09e667f3bcd, 0x3fe71f75e8ec5f74, 0x3fe7a11473eb0188, 0x3fe82589994cce13,
            0x3fe8ace5422aa0dc, 0x3fe93737b0cdc5e6, 0x3fe9c49182a3f091, 0x3fea5503b23e255d,
            0x3feae89f995ad3ae, 0x3feb7f76f2fb5e48, 0x3fec199bdd85529d, 0x3fecb720dcef906a,
            0x3fed5818dcfba488, 0x3fedfc97337b9b5f, 0x3feea4afa2a490da, 0x3fef50765b6e4541,
        ]
    } else if schema == 6 {
        seq![
            0x3fe0000000000000, 0x3fe02c9a3e778062, 0x3fe059b0d3158575, 0x3fe0874518759bc8,
            0x3fe0b5586cf98910, 0x3fe0e3ec32d3d1a3, 0x3fe11301d0125b51, 0x3fe1429aaea92de0,
            0x3fe172b83c7d517c, 0x3fe1a35beb6fcb76, 0x3fe1d4873168b9ab, 0x3fe2063b88628cd7,
            0x3fe2387a6e756239, 0x3fe26b4565e27cde, 0x3fe29e9df51fdee2, 0x3fe2d285a6e4030c,
            0x3fe306fe0a31b716, 0x3fe33c08b2641700, 0x3fe371a7373aa9cb, 0x3fe3a7db34e59ff7,
            0x3fe3dea64c123423, 0x3fe4160a21f72e2b, 0x3fe44e086061892e, 0x3fe486a2b5c13cd1,
            0x3fe4bfdad5362a28, 0x3fe4f9b2769d2ca7, 0x3fe5342b569d4f83, 0x3fe56f4736b527db,
            0x3fe5ab07dd48542a, 0x3fe5e76f15ad2149, 0x3fe6247eb03a5585, 0x3fe6623882552225,
            0x3fe6a09e667f3bcd, 0x3fe6dfb23c651a30, 0x3fe71f75e8ec5f74, 0x3fe75feb564267c9,
            0x3fe7a11473eb0188, 0x3fe7e2f336cf4e63, 0x3fe82589994cce13, 0x3fe868d99b4492ed,
            0x3fe8ace5422aa0dc, 0x3fe8f1ae99157737, 0x3fe93737b0cdc5e6, 0x3fe97d829fde4e50,
            0x3fe9c49182a3f091, 0x3fea0c667b5de566, 0x3fea5503b23e255d, 0x3fea9e6b5579fdc0,
            0x3feae89f995ad3ae, 0x3feb33a2b84f15fb, 0x3feb7f76f2fb5e48, 0x3febcc1e904bc1d3,
            0x3fec199bdd85529d, 0x3fec67f12e57d14c, 0x3fecb720dcef906a, 0x3fed072d4a07897c,
            0x3fed5818dcfba488, 0x3feda9e603db3286, 0x3fedfc97337b9b5f, 0x3fee502ee78b3ff7,
            0x3feea4afa2a490da, 0x3feefa1bee615a28, 0x3fef50765b6e4541, 0x3fefa7c1819e90d9,
        ]
    } else if schema == 7 {
        seq![
            0x3fe0000000000000, 0x3fe0163da9fb3336, 0x3fe02c9a3e778062, 0x3fe04315e86e7f85,
            0x3fe059b0d3158575, 0x3fe0706b29ddf6df, 0x3fe0874518759bc8, 0x3fe09e3ecac6f384,
            0x3fe0b5586cf98910, 0x3fe0cc922b7247f8, 0x3fe0e3ec32d3d1a3, 0x3fe0fb66affed31c,
            0x3fe11301d0125b51, 0x3fe12abdc06c31cd, 0x3fe1429aaea92de0, 0x3fe15a98c8a58e52,
            0x3fe172b83c7d517c, 0x3fe18af9388c8dea, 0x3fe1a35beb6fcb76, 0x3fe1bbe084045cd4,
            0x3fe1d4873168b9ab, 0x3fe1ed5022fcd91d, 0x3fe2063b88628cd7, 0x3fe21f49917ddc97,
            0x3fe2387a6e756239, 0x3fe251ce4fb2a640, 0x3fe26b4565e27cde, 0x3fe284dfe1f56381,
            0x3fe29e9df51fdee2, 0x3fe2b87fd0dad991, 0x3fe2d285a6e4030c, 0x3fe2ecafa93e2f57,
            0x3fe306fe0a31b716, 0x3fe32170fc4cd832, 0x3fe33c08b2641700, 0x3fe356c55f929ff1,
            0x3fe371a7373aa9cb, 0x3fe38cae6d05d866, 0x3fe3a7db34e59ff7, 0x3fe3c32dc313a8e5,
            0x3fe3dea64c123423, 0x3fe3fa4504ac801c, 0x3fe4160a21f72e2b, 0x3fe431f5d950a897,
            0x3fe44e086061892e, 0x3fe46a41ed1d0058, 0x3fe486a2b5c13cd1, 0x3fe4a32af0d7d3df,
            0x3fe4bfdad5362a28, 0x3fe4dcb299fddd0e, 0x3fe4f9b2769d2ca7, 0x3fe516daa2cf6642,
            0x3fe5342b569d4f83, 0x3fe551a4ca5d920f, 0x3fe56f4736b527db, 0x3fe58d12d497c7fe,
            0x3fe5ab07dd48542a, 0x3fe5c9268a5946b8, 0x3fe5e76f15ad2149, 0x3fe605e1b976dc09,
            0x3fe6247eb03a5585, 0x3fe6434634ccc320, 0x3fe6623882552225, 0x3fe68155d44ca974,
            0x3fe6a09e667f3bcd, 0x3fe6c012750bdac0, 0x3fe6dfb23c651a30, 0x3fe6ff7df9519484,
            0x3fe71f75e8ec5f74, 0x3fe73f9a48a58175, 0x3fe75feb564267c9, 0x3fe780694fde5d40,
            0x3fe7a11473eb0188, 0x3fe7c1ed0130c133, 0x3fe7e2f336cf4e63, 0x3fe80427543e1a12,
            0x3fe82589994cce13, 0x3fe8471a4623c7ae, 0x3fe868d99b4492ed, 0x3fe88ac7d98a669a,
            0x3fe8ace5422aa0dc, 0x3fe8cf3216b5448d, 0x3fe8f1ae99157737, 0x3fe9145b0b91ffc6,
            0x3fe93737b0cdc5e6, 0x3fe95a44cbc85210, 0x3fe97d829fde4e50, 0x3fe9a0f170ca07ba,
            0x3fe9c49182a3f091, 0x3fe9e86319e32323, 0x3fea0c667b5de566, 0x3fea309bec4a2d34,
            0x3fea5503b23e255d, 0x3fea799e1330b359, 0x3fea9e6b5579fdc0, 0x3feac36bbfd3f37a,
            0x3feae89f995ad3ae, 0x3feb0e07298db666, 0x3feb33a2b84f15fb, 0x3feb59728de5593a,
            0x3feb7f76f2fb5e48, 0x3feba5b030a1064a, 0x3febcc1e904bc1d3, 0x3febf2c25bd71e09,
            0x3fec199bdd85529d, 0x3fec40ab5fffd07b, 0x3fec67f12e57d14c, 0x3fec8f6d9406e7b6,
            0x3fecb720dcef906a, 0x3fecdf0b555dc3fb, 0x3fed072d4a07897c, 0x3fed2f87080d89f2,
            0x3fed5818dcfba488, 0x3fed80e316c98398, 0x3feda9e603db3286, 0x3fedd321f301b461,
            0x3fedfc97337b9b5f, 0x3fee264614f5a129, 0x3fee502ee78b3ff7, 0x3fee7a51fbc74c84,
            0x3feea4afa2a490da, 0x3feecf482d8e67f1, 0x3feefa1bee615a28, 0x3fef252b376bba98,
            0x3fef50765b6e4541, 0x3fef7bfdad9cbe14, 0x3fefa7c1819e90d9, 0x3fefd3c22b8f71f2,
        ]
    } else {
        seq![
            0x3fe0000000000000, 0x3fe00b1afa5abcbf, 0x3fe0163da9fb3336, 0x3fe02168143b0281,
            0x3fe02c9a3e778062, 0x3fe037d42e11bbcd, 0x3fe04315e86e7f85, 0x3fe04e5f72f654b2,
            0x3fe059b0d3158575, 0x3fe0650a0e3c1f89, 0x3fe0706b29ddf6df, 0x3fe07bd42b72a837,
            0x3fe0874518759bc8, 0x3fe092bdf66607e0, 0x3fe09e3ecac6f384, 0x3fe0a9c79b1f391a,
            0x3fe0b5586cf98910, 0x3fe0c0f145e46c86, 0x3fe0cc922b7247f8, 0x3fe0d83b23395dec,
            0x3fe0e3ec32d3d1a3, 0x3fe0efa55fdfa9c5, 0x3fe0fb66affed31c, 0x3fe1073028d7233f,
            0x3fe11301d0125b51, 0x3fe11edbab5e2ab6, 0x3fe12abdc06c31cd, 0x3fe136a814f204ab,
            0x3fe1429aaea92de0, 0x3fe14e95934f312f, 0x3fe15a98c8a58e52, 0x3fe166a45471c3c3,
            0x3fe172b83c7d517c, 0x3fe17ed48695bbc1, 0x3fe18af9388c8dea, 0x3fe1972658375d30,
            0x3fe1a35beb6fcb76, 0x3fe1af99f8138a1d, 0x3fe1bbe084045cd4, 0x3fe1c82f95281c6c,
            0x3fe1d4873168b9ab, 0x3fe1e0e75eb44027, 0x3fe1ed5022fcd91d, 0x3fe1f9c18438ce4d,
            0x3fe2063b88628cd7, 0x3fe212be3578a81a, 0x3fe21f49917ddc97, 0x3fe22bdda27912d2,
            0x3fe2387a6e756239, 0x3fe2451ffb82140b, 0x3fe251ce4fb2a640, 0x3fe25e85711ece76,
            0x3fe26b4565e27cde, 0x3fe2780e341ddf2a, 0x3fe284dfe1f56381, 0x3fe291ba7591bb71,
            0x3fe29e9df51fdee2, 0x3fe2ab8a66d10f13, 0x3fe2b87fd0dad991, 0x3fe2c57e39771b2f,
            0x3fe2d285a6e4030c, 0x3fe2df961f64158a, 0x3fe2ecafa93e2f57, 0x3fe2f9d24abd886c,
            0x3fe306fe0a31b716, 0x3fe31432edeeb2fe, 0x3fe32170fc4cd832, 0x3fe32eb83ba8ea32,
            0x3fe33c08b2641700, 0x3fe3496266e3fa2e, 0x3fe356c55f929ff1, 0x3fe36431a2de883b,
            0x3fe371a7373aa9cb, 0x3fe37f26231e754a, 0x3fe38cae6d05d866, 0x3fe39a401b7140ef,
            0x3fe3a7db34e59ff7, 0x3fe3b57fbfec6cf5, 0x3fe3c32dc313a8e5, 0x3fe3d0e544ede174,
            0x3fe3dea64c123423, 0x3fe3ec70df1c5176, 0x3fe3fa4504ac801c, 0x3fe40822c367a025,
            0x3fe4160a21f72e2b, 0x3fe423fb2709468a, 0x3fe431f5d950a897, 0x3fe43ffa3f84b9d5,
            0x3fe44e086061892e, 0x3fe45c2042a7d232, 0x3fe46a41ed1d0058, 0x3fe4786d668b3237,
            0x3fe486a2b5c13cd1, 0x3fe494e1e192aed2, 0x3fe4a32af0d7d3df, 0x3fe4b17dea6db7d7,
            0x3fe4bfdad5362a28, 0x3fe4ce41b817c115, 0x3fe4dcb299fddd0e, 0x3fe4eb2d81d8abff,
            0x3fe4f9b2769d2ca7, 0x3fe508417f4531ef, 0x3fe516daa2cf6642, 0x3fe5257de83f4eef,
            0x3fe5342b569d4f83, 0x3fe542e2f4f6ad28, 0x3fe551a4ca5d920f, 0x3fe56070dde910d2,
            0x3fe56f4736b527db, 0x3fe57e27dbe2c4d0, 0x3fe58d12d497c7fe, 0x3fe59c0827ff07cc,
            0x3fe5ab07dd48542a, 0x3fe5ba11fba87a03, 0x3fe5c9268a5946b8, 0x3fe5d84590998b93,
            0x3fe5e76f15ad2149, 0x3fe5f6a320dceb71, 0x3fe605e1b976dc09, 0x3fe6152ae6cdf6f5,
            0x3fe6247eb03a5585, 0x3fe633dd1d1929fe, 0x3fe6434634ccc320, 0x3fe652b9febc8fb7,
            0x3fe6623882552225, 0x3fe671c1c70833f6, 0x3fe68155d44ca974, 0x3fe690f4b19e9539,
            0x3fe6a09e667f3bcd, 0x3fe6b052fa75173f, 0x3fe6c012750bdac0, 0x3fe6cfdcddd47646,
            0x3fe6dfb23c651a30, 0x3fe6ef9298593ae6, 0x3fe6ff7df9519484, 0x3fe70f7466f42e88,
            0x3fe71f75e8ec5f74, 0x3fe72f8286ead08a, 0x3fe73f9a48a58175, 0x3fe74fbd35d7cbfe,
            0x3fe75feb564267c9, 0x3fe77024b1ab6e0a, 0x3fe780694fde5d40, 0x3fe790b938ac1cf7,
            0x3fe7a11473eb0188, 0x3fe7b17b0976cfdb, 0x3fe7c1ed0130c133, 0x3fe7d26a62ff86f1,
            0x3fe7e2f336cf4e63, 0x3fe7f3878491c491, 0x3fe80427543e1a12, 0x3fe814d2add106da,
            0x3fe82589994cce13, 0x3fe8364c1eb941f8, 0x3fe8471a4623c7ae, 0x3fe857f4179f5b21,
            0x3fe868d99b4492ed, 0x3fe879cad931a437, 0x3fe88ac7d98a669a, 0x3fe89bd0a4785810,
            0x3fe8ace5422aa0dc, 0x3fe8be05bad61779, 0x3fe8cf3216b5448d, 0x3fe8e06a5e0866d9,
            0x3fe8f1ae99157737, 0x3fe902fed0282c8b, 0x3fe9145b0b91ffc6, 0x3fe925c353aa2fe2,
            0x3fe93737b0cdc5e6, 0x3fe948b82b5f98e5, 0x3fe95a44cbc85210, 0x3fe96bdd9a7670b3,
            0x3fe97d829fde4e50, 0x3fe98f33e47a22a3, 0x3fe9a0f170ca07ba, 0x3fe9b2bb4d53fe0d,
            0x3fe9c49182a3f091, 0x3fe9d674194bb8d5, 0x3fe9e86319e32323, 0x3fe9fa5e8d07f29e,
            0x3fea0c667b5de566, 0x3fea1e7aed8eb8bc, 0x3fea309bec4a2d34, 0x3fea42c980460ad8,
            0x3fea5503b23e255d, 0x3fea674a8af46053, 0x3fea799e1330b359, 0x3fea8bfe53c12e59,
            0x3fea9e6b5579fdc0, 0x3feab0e521356ebb, 0x3feac36bbfd3f37a, 0x3fead5ff3a3c2775,
            0x3feae89f995ad3ae, 0x3feafb4ce622f300, 0x3feb0e07298db666, 0x3feb20ce6c9a8953,
            0x3feb33a2b84f15fb, 0x3feb468415b749b2, 0x3feb59728de5593a, 0x3feb6c6e29f1c52b,
            0x3feb7f76f2fb5e48, 0x3feb928cf22749e4, 0x3feba5b030a1064a, 0x3febb8e0b79a6f1f,
            0x3febcc1e904bc1d3, 0x3febdf69c3f3a208, 0x3febf2c25bd71e09, 0x3fec06286141b33d,
            0x3fec199bdd85529d, 0x3fec2d1cd9fa652c, 0x3fec40ab5fffd07b, 0x3fec544778fafb23,
            0x3fec67f12e57d14c, 0x3fec7ba88988c934, 0x3fec8f6d9406e7b6, 0x3feca3405751c4db,
            0x3fecb720dcef906a, 0x3feccb0f2e6d1675, 0x3fecdf0b555dc3fb, 0x3fecf3155b5bab74,
            0x3fed072d4a07897c, 0x3fed1b532b08c969, 0x3fed2f87080d89f2, 0x3fed43c8eacaa1d7,
            0x3fed5818dcfba488, 0x3fed6c76e862e6d3, 0x3fed80e316c98398, 0x3fed955d71ff6076,
            0x3feda9e603db3286, 0x3fedbe7cd63a8315, 0x3fedd321f301b461, 0x3fede7d5641c0658,
            0x3fedfc97337b9b5f, 0x3fee11676b197d17, 0x3fee264614f5a129, 0x3fee3b333b16ee12,
            0x3fee502ee78b3ff7, 0x3fee653924676d77, 0x3fee7a51fbc74c84, 0x3fee8f7977cdb740,
            0x3feea4afa2a490da, 0x3feeb9f4867cca6f, 0x3feecf482d8e67f1, 0x3feee4aaa2188511,
            0x3feefa1bee615a28, 0x3fef0f9c1cb6412a, 0x3fef252b376bba98, 0x3fef3ac948dd7275,
            0x3fef50765b6e4541, 0x3fef6632798844f9, 0x3fef7bfdad9cbe14, 0x3fef91d802243c8a,
            0x3fefa7c1819e90d9, 0x3fefbdba3692d514, 0x3fefd3c22b8f71f2, 0x3fefe9d96b2a23da,
        ]
    }
}

/// Each table is a boundary table of its schema.
#[verifier::rlimit(100)]
pub proof fn lemma_bounds_table(schema: int)
    requires
        1 <= schema <= 8,
    ensures
        is_bounds_table(schema, bounds_table(schema)),
{
    lemma2_to64();
    let s = bounds_table(schema);
    assert(forall|k: int| 0 <= k < s.len() - 1 ==> #[trigger] s[k] <= s[k + 1]);
    lemma_ascending_from_adjacent(s);
    assert(s[s.len() - 1] < LARGEST_FRACTION);
}

/// The boundary table of `schema`.
#[verifier::rlimit(100)]
pub fn native_histogram_bounds(schema: isize) -> (r: Vec<u64>)
    requires
        1 <= schema <= 8,
    ensures
        r@ == bounds_table(schema as int),
{
    let v = match schema {
        1 => vec![
            0x3fe0000000000000, 0x3fe6a09e667f3bcd,
        ],
        2 => vec![
            0x3fe0000000000000, 0x3fe306fe0a31b716, 0x3fe6a09e667f3bcd, 0x3feae89f995ad3ae,
        ],
        3 => vec![
            0x3fe0000000000000, 0x3fe172b83c7d517c, 0x3fe306fe0a31b716, 0x3fe4bfdad5362a28,
            0x3fe6a09e667f3bcd, 0x3fe8ace5422aa0dc, 0x3feae89f995ad3ae, 0x3fed5818dcfba488,
        ],
        4 => vec![
            0x3fe0000000000000, 0x3fe0b5586cf98910, 0x3fe172b83c7d517c, 0x3fe2387a6e756239,
            0x3fe306fe0a31b716, 0x3fe3dea64c123423, 0x3fe4bfdad5362a28, 0x3fe5ab07dd48542a,
            0x3fe6a09e667f3bcd, 0x3fe7a11473eb0188, 0x3fe8ace5422aa0dc, 0x3fe9c49182a3f091,
            0x3feae89f995ad3ae, 0x3fec199bdd85529d, 0x3fed5818dcfba488, 0x3feea4afa2a490da,
        ],
        5 => vec![
            0x3fe0000000000000, 0x3fe059b0d3158575, 0x3fe0b5586cf98910, 0x3fe11301d0125b51,
            0x3fe172b83c7d517c, 0x3fe1d4873168b9ab, 0x3fe2387a6e756239, 0x3fe29e9df51fdee2,
            0x3fe306fe0a31b716, 0x3fe371a7373aa9cb, 0x3fe3dea64c123423, 0x3fe44e086061892e,
            0x3fe4bfdad5362a28, 0x3fe5342b569d4f83, 0x3fe5ab07dd48542a, 0x3fe6247eb03a5585,
            0x3fe6a09e667f3bcd, 0x3fe71f75e8ec5f74, 0x3fe7a11473eb0188, 0x3fe82589994cce13,
            0x3fe8ace5422aa0dc, 0x3fe93737b0cdc5e6, 0x3fe9c49182a3f091, 0x3fea5503b23e255d,
            0x3feae89f995ad3ae, 0x3feb7f76f2fb5e48, 0x3fec199bdd85529d, 0x3fecb720dcef906a,
            0x3fed5818dcfba488, 0x3fedfc97337b9b5f, 0x3feea4afa2a490da, 0x3fef50765b6e4541,
        ],
        6 => vec![
            0x3fe0000000000000, 0x3fe02c9a3e778062, 0x3fe059b0d3158575, 0x3fe0874518759bc8,
            0x3fe0b5586cf98910, 0x3fe0e3ec32d3d1a3, 0x3fe11301d0125b51, 0x3fe1429aaea92de0,
            0x3fe172b83c7d517c, 0x3fe1a35beb6fcb76, 0x3fe1d4873168b9ab, 0x3fe2063b88628cd7,
            0x3fe2387a6e756239, 0x3fe26b4565e27cde, 0x3fe29e9df51fdee2, 0x3fe2d285a6e4030c,
            0x3fe306fe0a31b716, 0x3fe33c08b2641700, 0x3fe371a7373aa9cb, 0x3fe3a7db34e59ff7,
            0x3fe3dea64c123423, 0x3fe4160a21f72e2b, 0x3fe44e086061892e, 0x3fe486a2b5c13cd1,
            0x3fe4bfdad5362a28, 0x3fe4f9b2769d2ca7, 0x3fe5342b569d4f83, 0x3fe56f4736b527db,
            0x3fe5ab07dd48542a, 0x3fe5e76f15ad2149, 0x3fe6247eb03a5585, 0x3fe6623882552225,
            0x3fe6a09e667f3bcd, 0x3fe6dfb23c651a30, 0x3fe71f75e8ec5f74, 0x3fe75feb564267c9,
            0x3fe7a11473eb0188, 0x3fe7e2f336cf4e63, 0x3fe82589994cce13, 0x3fe868d99b4492ed,
            0x3fe8ace5422aa0dc, 0x3fe8f1ae99157737, 0x3fe93737b0cdc5e6, 0x3fe97d829fde4e50,
            0x3fe9c49182a3f091, 0x3fea0c667b5de566, 0x3fea5503b23e255d, 0x3fea9e6b5579fdc0,
            0x3feae89f995ad3ae, 0x3feb33a2b84f15fb, 0x3feb7f76f2fb5e48, 0x3febcc1e904bc1d3,
            0x3fec199bdd85529d, 0x3fec67f12e57d14c, 0x3fecb720dcef906a, 0x3fed072d4a07897c,
            0x3fed5818dcfba488, 0x3feda9e603db3286, 0x3fedfc97337b9b5f, 0x3fee502ee78b3ff7,
            0x3feea4afa2a490da, 0x3feefa1bee615a28, 0x3fef50765b6e4541, 0x3fefa7c1819e90d9,
        ],
        7 => vec![
            0x3fe0000000000000, 0x3fe0163da9fb3336, 0x3fe02c9a3e778062, 0x3fe04315e86e7f85,
            0x3fe059b0d3158575, 0x3fe0706b29ddf6df, 0x3fe0874518759bc8, 0x3fe09e3ecac6f384,
            0x3fe0b5586cf98910, 0x3fe0cc922b7247f8, 0x3fe0e3ec32d3d1a3, 0x3fe0fb66affed31c,
            0x3fe11301d0125b51, 0x3fe12abdc06c31cd, 0x3fe1429aaea92de0, 0x3fe15a98c8a58e52,
            0x3fe172b83c7d517c, 0x3fe18af9388c8dea, 0x3fe1a35beb6fcb76, 0x3fe1bbe084045cd4,
            0x3fe1d4873168b9ab, 0x3fe1ed5022fcd91d, 0x3fe2063b88628cd7, 0x3fe21f49917ddc97,
            0x3fe2387a6e756239, 0x3fe251ce4fb2a640, 0x3fe26b4565e27cde, 0x3fe284dfe1f56381,
            0x3fe29e9df51fdee2, 0x3fe2b87fd0dad991, 0x3fe2d285a6e4030c, 0x3fe2ecafa93e2f57,
            0x3fe306fe0a31b716, 0x3fe32170fc4cd832, 0x3fe33c08b2641700, 0x3fe356c55f929ff1,
            0x3fe371a7373aa9cb, 0x3fe38cae6d05d866, 0x3fe3a7db34e59ff7, 0x3fe3c32dc313a8e5,
            0x3fe3dea64c123423, 0x3fe3fa4504ac801c, 0x3fe4160a21f72e2b, 0x3fe431f5d950a897,
            0x3fe44e086061892e, 0x3fe46a41ed1d0058, 0x3fe486a2b5c13cd1, 0x3fe4a32af0d7d3df,
            0x3fe4bfdad5362a28, 0x3fe4dcb299fddd0e, 0x3fe4f9b2769d2ca7, 0x3fe516daa2cf6642,
            0x3fe5342b569d4f83, 0x3fe551a4ca5d920f, 0x3fe56f4736b527db, 0x3fe58d12d497c7fe,
            0x3fe5ab07dd48542a, 0x3fe5c9268a5946b8, 0x3fe5e76f15ad2149, 0x3fe605e1b976dc09,
            0x3fe6247eb03a5585, 0x3fe6434634ccc320, 0x3fe6623882552225, 0x3fe68155d44ca974,
            0x3fe6a09e667f3bcd, 0x3fe6c012750bdac0, 0x3fe6dfb23c651a30, 0x3fe6ff7df9519484,
            0x3fe71f75e8ec5f74, 0x3fe73f9a48a58175, 0x3fe75feb564267c9, 0x3fe780694fde5d40,
            0x3fe7a11473eb0188, 0x3fe7c1ed0130c133, 0x3fe7e2f336cf4e63, 0x3fe80427543e1a12,
            0x3fe82589994cce13, 0x3fe8471a4623c7ae, 0x3fe868d99b4492ed, 0x3fe88ac7d98a669a,
            0x3fe8ace5422aa0dc, 0x3fe8cf3216b5448d, 0x3fe8f1ae99157737, 0x3fe9145b0b91ffc6,
            0x3fe93737b0cdc5e6, 0x3fe95a44cbc85210, 0x3fe97d829fde4e50, 0x3fe9a0f170ca07ba,
            0x3fe9c49182a3f091, 0x3fe9e86319e32323, 0x3fea0c667b5de566, 0x3fea309bec4a2d34,
            0x3fea5503b23e255d, 0x3fea799e1330b359, 0x3fea9e6b5579fdc0, 0x3feac36bbfd3f37a,
            0x3feae89f995ad3ae, 0x3feb0e07298db666, 0x3feb33a2b84f15fb, 0x3feb59728de5593a,
            0x3feb7f76f2fb5e48, 0x3feba5b030a1064a, 0x3febcc1e904bc1d3, 0x3febf2c25bd71e09,
            0x3fec199bdd85529d, 0x3fec40ab5fffd07b, 0x3fec67f12e57d14c, 0x3fec8f6d9406e7b6,
            0x3fecb720dcef906a, 0x3fecdf0b555dc3fb, 0x3fed072d4a07897c, 0x3fed2f87080d89f2,
            0x3fed5818dcfba488, 0x3fed80e316c98398, 0x3feda9e603db3286, 0x3fedd321f301b461,
            0x3fedfc97337b9b5f, 0x3fee264614f5a129, 0x3fee502ee78b3ff7, 0x3fee7a51fbc74c84,
            0x3feea4afa2a490da, 0x3feecf482d8e67f1, 0x3feefa1bee615a28, 0x3fef252b376bba98,
            0x3fef50765b6e4541, 0x3fef7bfdad9cbe14, 0x3fefa7c1819e90d9, 0x3fefd3c22b8f71f2,
        ],
        _ => vec![
            0x3fe0000000000000, 0x3fe00b1afa5abcbf, 0x3fe0163da9fb3336, 0x3fe02168143b0281,
            0x3fe02c9a3e778062, 0x3fe037d42e11bbcd, 0x3fe04315e86e7f85, 0x3fe04e5f72f654b2,
            0x3fe059b0d3158575, 0x3fe0650a0e3c1f89, 0x3fe0706b29ddf6df, 0x3fe07bd42b72a837,
            0x3fe0874518759bc8, 0x3fe092bdf66607e0, 0x3fe09e3ecac6f384, 0x3fe0a9c79b1f391a,
            0x3fe0b5586cf98910, 0x3fe0c0f145e46c86, 0x3fe0cc922b7247f8, 0x3fe0d83b23395dec,
            0x3fe0e3ec32d3d1a3, 0x3fe0efa55fdfa9c5, 0x3fe0fb66affed31c, 0x3fe1073028d7233f,
            0x3fe11301d0125b51, 0x3fe11edbab5e2ab6, 0x3fe12abdc06c31cd, 0x3fe136a814f204ab,
            0x3fe1429aaea92de0, 0x3fe14e95934f312f, 0x3fe15a98c8a58e52, 0x3fe166a45471c3c3,
            0x3fe172b83c7d517c, 0x3fe17ed48695bbc1, 0x3fe18af9388c8dea, 0x3fe1972658375d30,
            0x3fe1a35beb6fcb76, 0x3fe1af99f8138a1d, 0x3fe1bbe084045cd4, 0x3fe1c82f95281c6c,
            0x3fe1d4873168b9ab, 0x3fe1e0e75eb44027, 0x3fe1ed5022fcd91d, 0x3fe1f9c18438ce4d,
            0x3fe2063b88628cd7, 0x3fe212be3578a81a, 0x3fe21f49917ddc97, 0x3fe22bdda27912d2,
            0x3fe2387a6e756239, 0x3fe2451ffb82140b, 0x3fe251ce4fb2a640, 0x3fe25e85711ece76,
            0x3fe26b4565e27cde, 0x3fe2780e341ddf2a, 0x3fe284dfe1f56381, 0x3fe291ba7591bb71,
            0x3fe29e9df51fdee2, 0x3fe2ab8a66d10f13, 0x3fe2b87fd0dad991, 0x3fe2c57e39771b2f,
            0x3fe2d285a6e4030c, 0x3fe2df961f64158a, 0x3fe2ecafa93e2f57, 0x3fe2f9d24abd886c,
            0x3fe306fe0a31b716, 0x3fe31432edeeb2fe, 0x3fe32170fc4cd832, 0x3fe32eb83ba8ea32,
            0x3fe33c08b2641700, 0x3fe3496266e3fa2e, 0x3fe356c55f929ff1, 0x3fe36431a2de883b,
            0x3fe371a7373aa9cb, 0x3fe37f26231e754a, 0x3fe38cae6d05d866, 0x3fe39a401b7140ef,
            0x3fe3a7db34e59ff7, 0x3fe3b57fbfec6cf5, 0x3fe3c32dc313a8e5, 0x3fe3d0e544ede174,
            0x3fe3dea64c123423, 0x3fe3ec70df1c5176, 0x3fe3fa4504ac801c, 0x3fe40822c367a025,
            0x3fe4160a21f72e2b, 0x3fe423fb2709468a, 0x3fe431f5d950a897, 0x3fe43ffa3f84b9d5,
            0x3fe44e086061892e, 0x3fe45c2042a7d232, 0x3fe46a41ed1d0058, 0x3fe4786d668b3237,
            0x3fe486a2b5c13cd1, 0x3fe494e1e192aed2, 0x3fe4a32af0d7d3df, 0x3fe4b17dea6db7d7,
            0x3fe4bfdad5362a28, 0x3fe4ce41b817c115, 0x3fe4dcb299fddd0e, 0x3fe4eb2d81d8abff,
            0x3fe4f9b2769d2ca7, 0x3fe508417f4531ef, 0x3fe516daa2cf6642, 0x3fe5257de83f4eef,
            0x3fe5342b569d4f83, 0x3fe542e2f4f6ad28, 0x3fe551a4ca5d920f, 0x3fe56070dde910d2,
            0x3fe56f4736b527db, 0x3fe57e27dbe2c4d0, 0x3fe58d12d497c7fe, 0x3fe59c0827ff07cc,
            0x3fe5ab07dd48542a, 0x3fe5ba11fba87a03, 0x3fe5c9268a5946b8, 0x3fe5d84590998b93,
            0x3fe5e76f15ad2149, 0x3fe5f6a320dceb71, 0x3fe605e1b976dc09, 0x3fe6152ae6cdf6f5,
            0x3fe6247eb03a5585, 0x3fe633dd1d1929fe, 0x3fe6434634ccc320, 0x3fe652b9febc8fb7,
            0x3fe6623882552225, 0x3fe671c1c70833f6, 0x3fe68155d44ca974, 0x3fe690f4b19e9539,
            0x3fe6a09e667f3bcd, 0x3fe6b052fa75173f, 0x3fe6c012750bdac0, 0x3fe6cfdcddd47646,
            0x3fe6dfb23c651a30, 0x3fe6ef9298593ae6, 0x3fe6ff7df9519484, 0x3fe70f7466f42e88,
            0x3fe71f75e8ec5f74, 0x3fe72f8286ead08a, 0x3fe73f9a48a58175, 0x3fe74fbd35d7cbfe,
            0x3fe75feb564267c9, 0x3fe77024b1ab6e0a, 0x3fe780694fde5d40, 0x3fe790b938ac1cf7,
            0x3fe7a11473eb0188, 0x3fe7b17b0976cfdb, 0x3fe7c1ed0130c133, 0x3fe7d26a62ff86f1,
            0x3fe7e2f336cf4e63, 0x3fe7f3878491c491, 0x3fe80427543e1a12, 0x3fe814d2add106da,
            0x3fe82589994cce13, 0x3fe8364c1eb941f8, 0x3fe8471a4623c7ae, 0x3fe857f4179f5b21,
            0x3fe868d99b4492ed, 0x3fe879cad931a437, 0x3fe88ac7d98a669a, 0x3fe89bd0a4785810,
            0x3fe8ace5422aa0dc, 0x3fe8be05bad61779, 0x3fe8cf3216b5448d, 0x3fe8e06a5e0866d9,
            0x3fe8f1ae99157737, 0x3fe902fed0282c8b, 0x3fe9145b0b91ffc6, 0x3fe925c353aa2fe2,
            0x3fe93737b0cdc5e6, 0x3fe948b82b5f98e5, 0x3fe95a44cbc85210, 0x3fe96bdd9a7670b3,
            0x3fe97d829fde4e50, 0x3fe98f33e47a22a3, 0x3fe9a0f170ca07ba, 0x3fe9b2bb4d53fe0d,
            0x3fe9c49182a3f091, 0x3fe9d674194bb8d5, 0x3fe9e86319e32323, 0x3fe9fa5e8d07f29e,
            0x3fea0c667b5de566, 0x3fea1e7aed8eb8bc, 0x3fea309bec4a2d34, 0x3fea42c980460ad8,
            0x3fea5503b23e255d, 0x3fea674a8af46053, 0x3fea799e1330b359, 0x3fea8bfe53c12e59,
            0x3fea9e6b5579fdc0, 0x3feab0e521356ebb, 0x3feac36bbfd3f37a, 0x3fead5ff3a3c2775,
            0x3feae89f995ad3ae, 0x3feafb4ce622f300, 0x3feb0e07298db666, 0x3feb20ce6c9a8953,
            0x3feb33a2b84f15fb, 0x3feb468415b749b2, 0x3feb59728de5593a, 0x3feb6c6e29f1c52b,
            0x3feb7f76f2fb5e48, 0x3feb928cf22749e4, 0x3feba5b030a1064a, 0x3febb8e0b79a6f1f,
            0x3febcc1e904bc1d3, 0x3febdf69c3f3a208, 0x3febf2c25bd71e09, 0x3fec06286141b33d,
            0x3fec199bdd85529d, 0x3fec2d1cd9fa652c, 0x3fec40ab5fffd07b, 0x3fec544778fafb23,
            0x3fec67f12e57d14c, 0x3fec7ba88988c934, 0x3fec8f6d9406e7b6, 0x3feca3405751c4db,
            0x3fecb720dcef906a, 0x3feccb0f2e6d1675, 0x3fecdf0b555dc3fb, 0x3fecf3155b5bab74,
            0x3fed072d4a07897c, 0x3fed1b532b08c969, 0x3fed2f87080d89f2, 0x3fed43c8eacaa1d7,
            0x3fed5818dcfba488, 0x3fed6c76e862e6d3, 0x3fed80e316c98398, 0x3fed955d71ff6076,
            0x3feda9e603db3286, 0x3fedbe7cd63a8315, 0x3fedd321f301b461, 0x3fede7d5641c0658,
            0x3fedfc97337b9b5f, 0x3fee11676b197d17, 0x3fee264614f5a129, 0x3fee3b333b16ee12,
            0x3fee502ee78b3ff7, 0x3fee653924676d77, 0x3fee7a51fbc74c84, 0x3fee8f7977cdb740,
            0x3feea4afa2a490da, 0x3feeb9f4867cca6f, 0x3feecf482d8e67f1, 0x3feee4aaa2188511,
            0x3feefa1bee615a28, 0x3fef0f9c1cb6412a, 0x3fef252b376bba98, 0x3fef3ac948dd7275,
            0x3fef50765b6e4541, 0x3fef6632798844f9, 0x3fef7bfdad9cbe14, 0x3fef91d802243c8a,
            0x3fefa7c1819e90d9, 0x3fefbdba3692d514, 0x3fefd3c22b8f71f2, 0x3fefe9d96b2a23da,
        ],
    };
    assert(v@ =~= bounds_table(schema as int));
    v
}

} // verus!
