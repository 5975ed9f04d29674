//! A generator of the field's multiplicative group: the powers of 2 that
//! show that its order is the modulus minus one, and the power that shows
//! that the curve's parameter is no square, evaluated bit by bit.

use crate::order::{lemma_pow_mod_mul, pow_mod};
use crate::primality::{lemma_square_start, lemma_square_step, square_step};
use vstd::arithmetic::div_mod::lemma_fundamental_div_mod_converse;
use vstd::prelude::*;

verus! {

/// The least generator of the field's multiplicative group.
pub open spec fn generator() -> int {
    2
}

/// One step of square-and-multiply modulo 0x1000000000000000000000000000000014def9dea2f79cd65812631a5cf5d3ed. The power before is
/// given twice, as `s.1` and as `x`; `q` is the quotient of its square, and
/// `p` the quotient of the product with `a` that follows where the bit is
/// set.
proof fn lemma_step_modulus(a: int, s: (nat, int), x: int, q: int, p: int, bit: int) -> (r: (
    nat,
    int,
))
    requires
        s.1 == pow_mod(a, s.0, 0x1000000000000000000000000000000014def9dea2f79cd65812631a5cf5d3edint),
        s.1 == x,
        0 <= x * x - q * 0x1000000000000000000000000000000014def9dea2f79cd65812631a5cf5d3edint < 0x1000000000000000000000000000000014def9dea2f79cd65812631a5cf5d3edint,
        bit == 0 || bit == 1,
        bit == 1 ==> 0 <= (x * x - q * 0x1000000000000000000000000000000014def9dea2f79cd65812631a5cf5d3edint) * a - p * 0x1000000000000000000000000000000014def9dea2f79cd65812631a5cf5d3edint < 0x1000000000000000000000000000000014def9dea2f79cd65812631a5cf5d3edint,
    ensures
        r.0 == 2 * s.0 + bit,
        r.1 == pow_mod(a, r.0, 0x1000000000000000000000000000000014def9dea2f79cd65812631a5cf5d3edint),
        r.1 == if bit == 1 {
            (x * x - q * 0x1000000000000000000000000000000014def9dea2f79cd65812631a5cf5d3edint) * a - p * 0x1000000000000000000000000000000014def9dea2f79cd65812631a5cf5d3edint
        } else {
            x * x - q * 0x1000000000000000000000000000000014def9dea2f79cd65812631a5cf5d3edint
        },
{
    lemma_square_step(a, s.0, 0x1000000000000000000000000000000014def9dea2f79cd65812631a5cf5d3edint, bit, x);
    let y = x * x - q * 0x1000000000000000000000000000000014def9dea2f79cd65812631a5cf5d3edint;
    lemma_fundamental_div_mod_converse(x * x, 0x1000000000000000000000000000000014def9dea2f79cd65812631a5cf5d3edint, q, y);
    if bit == 1 {
        lemma_fundamental_div_mod_converse(y * a, 0x1000000000000000000000000000000014def9dea2f79cd65812631a5cf5d3edint, p, y * a - p * 0x1000000000000000000000000000000014def9dea2f79cd65812631a5cf5d3edint);
    }
    ((2 * s.0 + bit) as nat, square_step(x, a, 0x1000000000000000000000000000000014def9dea2f79cd65812631a5cf5d3edint, bit))
}

/// The first 16 bits of the exponent of the same power.
proof fn lemma_power_modulus_1_part_1()
    ensures
        pow_mod(2, 40028, 0x1000000000000000000000000000000014def9dea2f79cd65812631a5cf5d3edint) == 0xee2f3d87debb179b923fbe67b5a938c19d50698de2a2aa715b1f16b499a9ce3int,
{
    let s = lemma_square_start(2, 0x1000000000000000000000000000000014def9dea2f79cd65812631a5cf5d3edint);
    let s = lemma_step_modulus(2, s, 1, 0, 0, 1);
    let s = lemma_step_modulus(2, s, 2, 0, 0, 0);
    let s = lemma_step_modulus(2, s, 4, 0, 0, 0);
    let s = lemma_step_modulus(2, s, 16, 0, 0, 1);
    let s = lemma_step_modulus(2, s, 512, 0, 0, 1);
    let s = lemma_step_modulus(2, s, 524288, 0, 0, 1);
    let s = lemma_step_modulus(2, s, 0x8000000000int, 0, 0, 0);
    let s = lemma_step_modulus(2, s, 0x40000000000000000000int, 0, 0, 0);
    let s = lemma_step_modulus(2, s, 0x1000000000000000000000000000000000000000int, 0xfffffffffffffffint, 0, 0);
    let s = lemma_step_modulus(2, s, 0xffffffffffffffffeb2106215d08632af5dd3acfd283f978812631a5cf5d3edint, 0xffffffffffffffffd6420c42ba10c6549f7e70f6910a5625bef51e19a175348int, 1, 1);
    let s = lemma_step_modulus(2, s, 0xccb96b8c7552f466369e5dcae7cb4dccf9409aab8a0e08905d9bb160ee65b95int, 0xa3b809b4792c7e8c03950619f907fba2c5d7107014559fa85bfc7847d036c5fint, 0, 0);
    let s = lemma_step_modulus(2, s, 0x49d6c7c6ad1c3a1e0093ee2c52166745f605bfd3c199b227034e6589316a3c6int, 0x154c3221eac9ffa865910a1faa9104936df18ac8c780c81aeda0ed248562503int, 1, 1);
    let s = lemma_step_modulus(2, s, 0x619dcc5e2df5341840974a82b6d04d6d543e13c9e2bafa0304e16a098642ccdint, 0x2538f623ad7e6c20da0ae7f64873cfd61327c1bdc159451edbb4e10c05d5fedint, 0, 1);
    let s = lemma_step_modulus(2, s, 0xf3fa3a40b7981613034c7c413e81364a426f0fd272ac85c5ace6f5ee357ed80int, 0xe884ff2cb032b2806f1c163041d59cd318a63fea00858786408d6aa065d1a42int, 1, 1);
    let s = lemma_step_modulus(2, s, 0x4c99c338229b35deb7674d5aa8fef904e7e501c9ce39cd6da0953e541b741dfint, 0x16eba8444284168a3dc304a9577edb15f3d4829665490950371d422dca45365int, 0, 0);
    let s = lemma_step_modulus(2, s, 0xe3b4401a900dbcf83af3db6abeeff2afd534a34b0d7f055cc3226f8ab3e8cc0int, 0xca89289950e03b3a67f55345c2fdd5dba53909801bf06cc72437a9921bd15f1int, 0, 0);
    assert(s.0 == 40028);
}

/// The first 32 bits of the exponent of the same power.
proof fn lemma_power_modulus_1_part_2()
    ensures
        pow_mod(2, 0x9c5c7a67nat, 0x1000000000000000000000000000000014def9dea2f79cd65812631a5cf5d3edint) == 0x4f3977a8f232d50ae71ebb78a50a2f58c52b68c5a3257f7b1c60d12ef64798fint,
{
    lemma_power_modulus_1_part_1();
    let s = (40028nat, 0xee2f3d87debb179b923fbe67b5a938c19d50698de2a2aa715b1f16b499a9ce3int);
    let s = lemma_step_modulus(2, s, 0xee2f3d87debb179b923fbe67b5a938c19d50698de2a2aa715b1f16b499a9ce3int, 0xdd9bdf2048d1b0d9c36a48e4b0ef21cbdf951771dc0569d72f5f3ab18a74ed6int, 0, 0);
    let s = lemma_step_modulus(2, s, 0xf3f24da46f85b75ed8444400391cc96bf64795ff03ea91dc307ffb58395132bint, 0xe875e4bd0e2707a24219b4a370a889af104b6fef7ce157c73002d6ff5af6ba9int, 0, 1);
    let s = lemma_step_modulus(2, s, 0xc75e81a6957396740e2ceeaee48f48246fd50fdf120f2e02b29beb10b3ae588int, 0x9b4410747458c3cf920c1a3277c9a7f92f03206aea00cf9b87d2dfeb3a42734int, 0, 1);
    let s = lemma_step_modulus(2, s, 0x5c8eeb1179852003f1a1044a3e584a6aa8a275fe7e6c95c9135be035ec0e238int, 0x217708be2e9394fe20306557d6f3c395df37da6d2fa49bf87c2f54356b2c3f8int, 1, 1);
    let s = lemma_step_modulus(2, s, 0x303b73fe082a6e5ede0a0169e447febc1e9a0647dbdca36add5b9718c1e5b63int, 0x916594deeb5e45cc69d06d04a214f47163896d6ce55e5c2744673aa0266faeint, 1, 1);
    let s = lemma_step_modulus(2, s, 0x1f948a1f21be4559870d94718fd9e69e063580333b3fd2a61c45f129461a079int, 0x3e54fa388b0acf631855e3c95f8d6eecae8e47c496f407b1b20116012d0964int, 0, 0);
    let s = lemma_step_modulus(2, s, 0x536b583495bde711a50ff872ff030dc531d9a1b0d388b4556b551d1c6265b9dint, 0x1b2ec834f37282545560f2f3d58c4f69cffce093e7a4f93b23bffc2a35d4da2int, 0, 1);
    let s = lemma_step_modulus(2, s, 0xdb3f279a28e897e28b366fa364a6c218bbd3466a22e9a40e5875ea70dfb329eint, 0xbbc51d5645fe6ba47856ed91045d51aa837c646004e26d5d6141610c9c9bcdbint, 0, 0);
    let s = lemma_step_modulus(2, s, 0xb7e76dddee1f8ac153536455f23685914b434223f64c54acf05cab9cfd2c1c5int, 0x841cb04ac01b9278aa22769331c7ba977b9283ce2c6b1cd7bc0a9177e144448int, 0, 0);
    let s = lemma_step_modulus(2, s, 0xedc7fd47c8e69445bca1d84f703630295b66f33f3443eb6f5c2d4af69ec12f1int, 0xdcdbe732aa2c3c3c72501b03a284532cd71b45fb820d5ae907f81c3e5f65e1cint, 0, 1);
    let s = lemma_step_modulus(2, s, 0x16f0f37e1e1f86c9e0b3e9a8b4567de823e90907ccb72294d6de8c5149925eaint, 0x20e4ca3213e9198f19b94471687d502c868526216670546d99bc6567c4a1d1int, 1, 1);
    let s = lemma_step_modulus(2, s, 0x3b3e492926700f587c43f5916053d9406309af8839b41c8e43eb0533ad0fce1int, 0xdb5c4e07c8ec3e3768e5aee37df45c52d556b7dc99409f447ff1aa553f510aint, 0, 0);
    let s = lemma_step_modulus(2, s, 0xe1c0126b02965c920a020fbd14bce266d13281db11308072cf728679970797fint, 0xc713307bbc63695bdf63400186c7ed6f83f744511a01a1788ebce99b857b591int, 0, 0);
    let s = lemma_step_modulus(2, s, 0x7f15d8eddff9ac007c9a8bae701c870b9527522054adc5ec03daaab832ab2c4int, 0x3f16af195312be9c7e340046654ffc44954dca4097bcdb5e548356c882dd557int, 0, 1);
    let s = lemma_step_modulus(2, s, 0x37b7da1258056112d5730f9fda0e9a9410993dd89b43fcc0a39abaae739df0aint, 0xc2083bd61cf66a088fe083ee3513188827867d60e4cadd302821a25db2fab6int, 0, 1);
    let s = lemma_step_modulus(2, s, 0xaac231df11f5e7328ccd89c9c052f1b20ed5361454c6d146a868aed0a849fccint, 0x71e67d8be3a8f701f9cb1b65d44c019fce1ff9976b07e9e228934aac6739cdaint, 1, 1);
    assert(s.0 == 0x9c5c7a67nat);
}

/// The first 48 bits of the exponent of the same power.
proof fn lemma_power_modulus_1_part_3()
    ensures
        pow_mod(2, 0x9c5c7a67bb0fnat, 0x1000000000000000000000000000000014def9dea2f79cd65812631a5cf5d3edint) == 0x8e133ab441e615f5868a0fc21428e4dc81ec2904bb9df12ad7afb0e4786dfbbint,
{
    lemma_power_modulus_1_part_2();
    let s = (0x9c5c7a67nat, 0x4f3977a8f232d50ae71ebb78a50a2f58c52b68c5a3257f7b1c60d12ef64798fint);
    let s = lemma_step_modulus(2, s, 0x4f3977a8f232d50ae71ebb78a50a2f58c52b68c5a3257f7b1c60d12ef64798fint, 0x188484c0c6a5bac9a36bc97262b9870b2acd8bdbc00f7eec6bcdf077ecb1735int, 0, 1);
    let s = lemma_step_modulus(2, s, 0x3b458f74fc9588e588a12ec243d02524f8d7bb72b291e1ae99713f85724a5a0int, 0xdb9230691e0fd5a88612df52dacf5cadb785186dba810d8f234b0bd4af2fdeint, 0, 0);
    let s = lemma_step_modulus(2, s, 0xf2dca8ac84f94620191fc5752a3a6d4867aff3e48db77fd53ce2228de0e597aint, 0xe665ed18830eb7cf56bd9f12f2a15d1795bf93791fb7debaebe760cee3e1434int, 1, 1);
    let s = lemma_step_modulus(2, s, 0x5067e0773dbbb752543f13def63ce4b1ceb36dfedf1b866078f488d247f2813int, 0x19411670eb59e333ed1eb8289e6eceae0fc6a809e074dc23040900869501f59int, 1, 1);
    let s = lemma_step_modulus(2, s, 0xe20ec85ca1ec01a7424c95fac2d429dcfb36d5266da59aa50366078dae94e1bint, 0xc79e1a9e14d7474109fbb4a5e698d36b5ee5741807774ad5a9af5dfeade60efint, 0, 1);
    let s = lemma_step_modulus(2, s, 0x4ebdea432cb5e70c4f97006565029da2fffe64d0a7218631e650249bcf5792cint, 0x183847a4accdbcbfa21603d2d853fb8b1a58eeb17b2e73efbf7b1e626c7eeb3int, 0, 0);
    let s = lemma_step_modulus(2, s, 0x223be85a774536c16685f5e6255d27f398174d71718b3b1cbe6e1b516e1ad9int, 0x493f7bcf445749823db4c7dbb2bf946fe34c63976265a62d11c8c28e7a71int, 1, 1);
    let s = lemma_step_modulus(2, s, 0xece1758f1cd2462c824b0ff2d7712e1d6c93a0e9e8a7c092824b107c3b4c8bbint, 0xdb30774fb8b07b5ad4c52e3ce349b9d3b8f714ee13979f89317049e66c712e6int, 0, 1);
    let s = lemma_step_modulus(2, s, 0xdfa3ab1cb9d406e11d9d06c4b571693df4590fa8738bbe1baa3bf559abd4f56int, 0xc35e8cbf64b36b7762b9a81c55d43c661af5c1e3c130b33091ded1f8e6a8d9eint, 0, 0);
    let s = lemma_step_modulus(2, s, 0x346ad0ae93053dcb58b98603941c5cec6bb218987695e848ebb70ab9fddb9eint, 0xabb9158666807667c6a4dc185db3bbdf62caebd8f85d89dd88c0f468f26bint, 0, 0);
    let s = lemma_step_modulus(2, s, 0x8139db5f78ff619acf462704e04a53002b86f26545060ad64c9abfcf5561775int, 0x413b5c29a471beb7738eba5ce0fb7723edcdad7bd6ad5af2913fd08f4775917int, 0, 0);
    let s = lemma_step_modulus(2, s, 0x54bbea3a4417675c8ed4c9f05d39034b6ca502f834b529523fef3d67ed3cc2eint, 0x1c0bdba6441d67c374a0cb7f642ad8b4d09b1165208b1b03e34cd9024facdccint, 0, 0);
    let s = lemma_step_modulus(2, s, 0xa5363e0c0f40c63cdcb857032b3ef4c7de81988cfbf967721e16f7e46a1ae68int, 0x6a9ef779c7c9c6d2e533762ba051419a267e26945c877912c0bdd556afa780eint, 1, 1);
    let s = lemma_step_modulus(2, s, 0x4fe989275ad94ead2def06b365fdc81bf6ab0e19f3a077ff06a5d943dd7e2a7int, 0x18f1f7b13d30a3697e3ffaf2fd94445e5d570538e7d64f2feeca7dc219c190aint, 1, 1);
    let s = lemma_step_modulus(2, s, 0x13e0b903ca47a06e7fa4d17c52fd736a6cecf9791be893e8c1e956d1ff3e571int, 0x18b20badc5f19930bb46bd305caaacc64394983c8a1aa06a09715be65f41d6int, 0, 1);
    let s = lemma_step_modulus(2, s, 0x4329958924d337a746ab7f6e3ec1a6b22053148a2cba793a4e1d4a19d00d86int, 0x119ecb07068d491fb0b8c6dba1c6388b2bb356e9c6876cd79895470b23f90int, 1, 1);
    assert(s.0 == 0x9c5c7a67bb0fnat);
}

/// The first 64 bits of the exponent of the same power.
proof fn lemma_power_modulus_1_part_4()
    ensures
        pow_mod(2, 0x9c5c7a67bb0f1fefnat, 0x1000000000000000000000000000000014def9dea2f79cd65812631a5cf5d3edint) == 0xf855c11f4c68d8712b7247afca134e675336c8bd4f6b85220bc06bf1946645aint,
{
    lemma_power_modulus_1_part_3();
    let s = (0x9c5c7a67bb0fnat, 0x8e133ab441e615f5868a0fc21428e4dc81ec2904bb9df12ad7afb0e4786dfbbint);
    let s = lemma_step_modulus(2, s, 0x8e133ab441e615f5868a0fc21428e4dc81ec2904bb9df12ad7afb0e4786dfbbint, 0x4ed95691bd53354ca22bea278bd885a763be55ceea28742cb1f560338a8d2b5int, 0, 0);
    let s = lemma_step_modulus(2, s, 0xb268ac0e24bc7b14e8224d70b28faf66d08ab0832545b4af0fcae41681c1208int, 0x7c55ba0fea36f67263136b2a02dc7ddcf4c70462ad5d38bb9cf94827a6cb970int, 0, 0);
    let s = lemma_step_modulus(2, s, 0x50a72c24cc0f91d45c5beed76e86e5e04853741e05976c98ac77005c7562390int, 0x1968e8c19f28a2e45df4ca0eb3435677ff2ecce252b8b5d9a0762dbed40ad2aint, 0, 0);
    let s = lemma_step_modulus(2, s, 0xf24d109400571b4dac4262b5ec0dc3be0ef8b98f9dcd6764006805a04e4c31eint, 0xe555ca8acabfb9a08e88878a5e87753abe2f8d7ef7dcff1997e26e9a5f3d077int, 1, 1);
    let s = lemma_step_modulus(2, s, 0x8a5b0b237cd2cdfac2987c24db2ddd4ba17f52277e911f85f256b440c7d74c5int, 0x4ac648632e4a1596464782abd084edd2994429dedfc9e6e148188b62dd9d9ddint, 1, 1);
    let s = lemma_step_modulus(2, s, 0x14a9a6d63deef62fe88aa5120064a84eff6a963556eeb441cde13b532d2ba13int, 0x1aaf27f2d45a796095c2ae6da5a2224eda44b77ecb3168fbdf8166afdec193int, 0, 1);
    let s = lemma_step_modulus(2, s, 0xd4752b9007473a723da6dabc83c57b86ef4ec38c91b16b38d8d409f73ee7ea4int, 0xb05245c7651e5362c081cf0b4bd638e04bb2809ef5ad23d79422a0c61b625d3int, 1, 1);
    let s = lemma_step_modulus(2, s, 0xbf3bd475891d3e5128d21bb80927b7851b69e8ec3e84bced1b76d9486bc0385int, 0x8eda55030119b786e1b4080abdb32c4e8490c45793a7ef8e9a6459e9ed8fa4aint, 0, 1);
    let s = lemma_step_modulus(2, s, 0x4da539223910c335ff3948d39890874209483365832f14a9a6cef50c2cf5d2eint, 0x178ccf014931e706cb3dd3ad7f71e59d1e1da3a5d29177ceb2ef7284e2b9287int, 0, 1);
    let s = lemma_step_modulus(2, s, 0x204875774c28b074f7c7117e3ae32ec64e5752b22134e0b0e68f44305ff1092int, 0x41231e01c0b463595844ad0c8163b65e479a013a05ac94b5fa83466de0a1d4int, 0, 1);
    let s = lemma_step_modulus(2, s, 0xa68356e964b1711e413a28d946f8235f57b5e0c1d8cf967391a1d8993660c00int, 0x6c4e9818bef4d0bcac2986c2a680228421b6725fc7b6362f6fa6b6835cc8bf6int, 0, 1);
    let s = lemma_step_modulus(2, s, 0xd511b0b960aa9b3dfe5e5a5031a4fd46de1408f8ad4b2dec85f0d33a0d15684int, 0xb156714d6d7a2825380ece4ddd10aba0d52c1a4e5be372cc8f609e2cac8024eint, 0, 0);
    let s = lemma_step_modulus(2, s, 0xa006afdc8c8e54feafd4aa8dad3ca83e772747a8b4e6d9a79a6cba88f0e87daint, 0x64085c0066d7c716d1bc596504f692bd4103247ada47054b9720194dbbcbf50int, 1, 1);
    let s = lemma_step_modulus(2, s, 0x1dba4a64dbdd95cbc288203778fb6a4b49b561ad82e960e942edd7754f15d3bint, 0x373bc6b09fe28c672b536d8a747997a73734bd39bf959f48f5e3edea6a3c75int, 0, 1);
    let s = lemma_step_modulus(2, s, 0xbee2de5e38ec4de0b0bedf2f82313366e0862d2ae7a6922a5d39fb3cdc50890int, 0x8e558b213c02d23ab856840b67af84f49166ff1fd586627c27e5a9b64f28907int, 1, 1);
    let s = lemma_step_modulus(2, s, 0xf7a56b8a5d437ea95b846a2755a5c8a6bf016f13fd65041c048e81b38838d1dint, 0xef90a068cd816c2b2f89ba72b148e776925ae7f204e9435bfcb63147e72a40cint, 0, 1);
    assert(s.0 == 0x9c5c7a67bb0f1fefnat);
}

/// The first 80 bits of the exponent of the same power.
proof fn lemma_power_modulus_1_part_5()
    ensures
        pow_mod(2, 0x9c5c7a67bb0f1fef559anat, 0x1000000000000000000000000000000014def9dea2f79cd65812631a5cf5d3edint) == 0x3337f45e0d66cc9e0c5d6f85a569e31ac6a67bd9fe77bb0d6cd729dceb84603int,
{
    lemma_power_modulus_1_part_4();
    let s = (0x9c5c7a67bb0f1fefnat, 0xf855c11f4c68d8712b7247afca134e675336c8bd4f6b85220bc06bf1946645aint);
    let s = lemma_step_modulus(2, s, 0xf855c11f4c68d8712b7247afca134e675336c8bd4f6b85220bc06bf1946645aint, 0xf0e642e674841604ade1bf26ccc456bfee8a5abe09e04e284c8e87a6826df5aint, 0, 0);
    let s = lemma_step_modulus(2, s, 0x29d565ef186f42f6362bcfefec5b60e9a291d72e984358aa996897a0d587b52int, 0x6d60c895e48d52eb7fa88e3e405394b8c49ab61a7cc5b4dc726cd56cd1e655int, 0, 1);
    let s = lemma_step_modulus(2, s, 0xab7e47c1f99d7b1b200f4687053be921484e879c38699c6a17fcf653a893526int, 0x72e1f227da8744eb18a85c4b9ce48a861bf40a02a9ab2af61a0a6cd0d16924dint, 0, 0);
    let s = lemma_step_modulus(2, s, 0x58c9f5c45c194bb0435427ead97dce32987ea620629e0cdbade25fcbd88d95bint, 0x1ecb784ad99b72a79bd10d44e0c70d28ce702db5fca19e8ac46777197dfe93eint, 1, 1);
    let s = lemma_step_modulus(2, s, 0xf50b89d356ec60aedf14ece360beeaae083108077cb7e17b82f63e661c2e7f9int, 0xea8f1653a6bdcae06cab6f7799929677234caaa859002204e0b5ec199d3e409int, 0, 0);
    let s = lemma_step_modulus(2, s, 0xe98af9dfac5521f9da5b9e49583c19e1ef92f48df483c9518df64ef92dcc8dcint, 0xd50e464b80bda44cbd45eef0211175048561c291951d296994ed76614fd6c4aint, 1, 1);
    let s = lemma_step_modulus(2, s, 0x39ee99e5a6e8c8889f48efcda2becc4a08a3c3c655577c83e29f1f41f1aa92fint, 0xd1c1eeac7da51a7fdf370f6df3d7126e5035119934daf4a0c7922da028bba6int, 0, 0);
    let s = lemma_step_modulus(2, s, 0x9b52da594c6d0aa27b6a5e4ce3302b4c039e3c7542cc50f8e5b5cd2191d8bf3int, 0x5e3d6f38bdfd360b8248ea430503bd04013c2f089eff61a7c52cddd4dab5d38int, 1, 1);
    let s = lemma_step_modulus(2, s, 0x3743d24861848458c48cf9530eb5236f6897152d6cb2c52fda1a58f9a04d3b5int, 0xbee3652d884d0afd3bd3a360f0d3aaef776045b875e1b542b9feb231c30cfaint, 1, 1);
    let s = lemma_step_modulus(2, s, 0x66b831f8881bbbc19e8a24512b4cfe7ef92300f7d82509ea74a23819373c521int, 0x29374c59eb7ad6decca35bd7cdbbb11a548d4dc4dcef46fa5af75344e77bcacint, 0, 0);
    let s = lemma_step_modulus(2, s, 0xf8ec1cf09b15c5a06ff3ca822063326c033a346591a815fa126e09e37a5f05int, 0xf20a51d78b5da31b22b7c6530887f9b992a31447cb971de6152a19db5ce83int, 0, 0);
    let s = lemma_step_modulus(2, s, 0x195b4616065013cf325f2d53f2e85871192e04786986041f2019d3c00238dd2int, 0x282f43b34142e256de4f7a76daa2082a8c30991ea9087576c4bca90557fcb7int, 0, 1);
    let s = lemma_step_modulus(2, s, 0xf11bbb48c181b34c1373a76527df2b9757e6d2d9586ea9654d3dfc3fe346bb2int, 0xe31539a006b26451f5d6acd69198010ff8bb81ef620c51cde82f25b96422ca6int, 1, 1);
    let s = lemma_step_modulus(2, s, 0xd39fd302a2086d465fc06ecd51c8b9ae9b38627caee5aefd1ffc061dc6a6c3fint, 0xaef0d99e224c81ba92148934e1bf3296e7886d82a90117cf570f466bdc89714int, 0, 0);
    let s = lemma_step_modulus(2, s, 0xe82023ab47d1ccc141c355e46f6f5ceb87335487c5139ed6e8ee1324c93ddfdint, 0xd27a44af61f67fcddbecea2ff1533730dead6669ecbc5e04d575416174d175eint, 0, 1);
    let s = lemma_step_modulus(2, s, 0x514cf2076b19df961e1113179efc52be73d06aeefd75688fad193534eeb6006int, 0x19d1c8494afffd8db31956cb2164cbc1bb3eb736da2f07706d80a937e19a085int, 0, 0);
    assert(s.0 == 0x9c5c7a67bb0f1fef559anat);
}

/// The first 96 bits of the exponent of the same power.
proof fn lemma_power_modulus_1_part_6()
    ensures
        pow_mod(2, 0x9c5c7a67bb0f1fef559a72f9nat, 0x1000000000000000000000000000000014def9dea2f79cd65812631a5cf5d3edint) == 0xb7787fb2d687fd5dafd8dca7d15b102151fbfa3452636af675ad73e094b8de3int,
{
    lemma_power_modulus_1_part_5();
    let s = (0x9c5c7a67bb0f1fef559anat, 0x3337f45e0d66cc9e0c5d6f85a569e31ac6a67bd9fe77bb0d6cd729dceb84603int);
    let s = lemma_step_modulus(2, s, 0x3337f45e0d66cc9e0c5d6f85a569e31ac6a67bd9fe77bb0d6cd729dceb84603int, 0xa3f5798630423ccb315b0481b498a8424efa56c7a2f30c9f0b33dc5734a11bint, 0, 0);
    let s = lemma_step_modulus(2, s, 0x968db5a8d22c4cebe25ecc373217baf078296085a6ec1ce5c3bd5208c1c3d0aint, 0x588a5f53732b97785495ad4e544951df0052c007aacd0e79b1b80d9e6cc4a73int, 0, 1);
    let s = lemma_step_modulus(2, s, 0x366228bb4d90608a50f4973bcbbd471ae588c40a88941d3164f28f170621ddaint, 0xb8d8ed23a9b5c8bcaa599efad09b58775a884923a85955cfd5d1278a96f39fint, 0, 1);
    let s = lemma_step_modulus(2, s, 0x53948e7ae1ff02360f1a6e452a746805db95c787b752ce62c79fc5b35590ce2int, 0x1b49aa98bbed37fcb150ee407f49d7359619347c07c2c32660b64e9da448f33int, 0, 1);
    let s = lemma_step_modulus(2, s, 0x798beee63e86dde3b11435bb34bdbaece1d94ccd53bf4e8c91240a92cf6b89aint, 0x39b59452f4144f8d60d713a869d5589f82926039afe0def1030e11acf018bd6int, 0, 0);
    let s = lemma_step_modulus(2, s, 0xf9ec80a53d9411b45d3fa8da7e17f7bd1a6add3ed754fcc2f7c59a89697e586int, 0xf3fdecbee3193bae0354d9aca742df64fb0c5e5f30f750bf99d9021e181e88dint, 0, 0);
    let s = lemma_step_modulus(2, s, 0x8f1b2e17f4419c9def6ddf20c4a93a45ed54b4204e81b8232ec48586fb809bint, 0x4fff6061843b70d4dbed4a3e26fa4dbb630ca27dda261324cf3d02c09b7b1int, 0, 1);
    let s = lemma_step_modulus(2, s, 0xa8d3bc8181a835925ba9a54ca72f32e73f6574fc70b7e103ad260ed0984d7f8int, 0x6f56968a4276f98b6371ab407f39ec4bcd5e1876ff9c34bfd0b7a3c902f50e4int, 0, 0);
    let s = lemma_step_modulus(2, s, 0xb9f009a621e9c74a3adcb806affc36727a44bb4ab780af67ae706e40844b12cint, 0x870ccf0434e0929163f1271815842ae4c2e61960be166b95caa7303cd039310int, 0, 1);
    let s = lemma_step_modulus(2, s, 0x70353058ab6298427188d1a77d4c2374d891cfd62f093bbc2194fa3a511380int, 0x312e955aa3ce9b086e792fbc6ac61f96d8da89b1b272eb4ee887b90522330int, 1, 1);
    let s = lemma_step_modulus(2, s, 0x586d100d9546bb5159742656c21f7e0eafb749f707c782a0cc384f9dc0c6533int, 0x1e8b298003337264c86aa24d919bc53e509c787701961e9e41c7f6503578cf5int, 0, 1);
    let s = lemma_step_modulus(2, s, 0xfdd422bc8c474dc06527d2cb59985054fdf12b27d9730a8a2dbb04c3229b4b0int, 0xfbacfc723a43e5e854d79ef4dd58099afec182b197597a915044636bd571363int, 1, 1);
    let s = lemma_step_modulus(2, s, 0x69b2be56aec04d627c0a965f3002b4e0371f402340aa3897d211277822d06c5int, 0x2ba41cf059698ba5ba1156044bd02828091ba7911a220d2cbc2c989e6689606int, 1, 1);
    let s = lemma_step_modulus(2, s, 0x7de55a05a9b7d69a4f04cb0d4029a6cf4747dd38f3b6b84faf55868117a2829int, 0x3de9c763b58725edf5d32bd0ec2a5d1d4de40d6dff19d8cba80fa33cdab582dint, 0, 0);
    let s = lemma_step_modulus(2, s, 0x7fe20fc920a97f909bff7576f56d264ad950fdd1d79d0ba47c02c388f021de8int, 0x3fe213496e7f07aee162f91227f4a763e5beef776ec54b228065ed1ea3bf383int, 0, 0);
    let s = lemma_step_modulus(2, s, 0x5977415dee5ac719214133033eefe717750aa9a4ecf841d89804b574789f8f9int, 0x1f44230125bf8c55b778959e4666b8e553ba59856e8f4574bf8c80f27cb5f4dint, 1, 1);
    assert(s.0 == 0x9c5c7a67bb0f1fef559a72f9nat);
}

/// The power 0x9c5c7a67bb0f1fef559a72f9c71 of 2 modulo 0x1000000000000000000000000000000014def9dea2f79cd65812631a5cf5d3ed.
proof fn lemma_power_modulus_1()
    ensures
        pow_mod(2, 0x9c5c7a67bb0f1fef559a72f9c71nat, 0x1000000000000000000000000000000014def9dea2f79cd65812631a5cf5d3edint) == 0x6c111c0a58d76ee16403842119d2e936b5da1fdeb167e3e46097da9c11a3cceint,
{
    lemma_power_modulus_1_part_6();
    let s = (0x9c5c7a67bb0f1fef559a72f9nat, 0xb7787fb2d687fd5dafd8dca7d15b102151fbfa3452636af675ad73e094b8de3int);
    let s = lemma_step_modulus(2, s, 0xb7787fb2d687fd5dafd8dca7d15b102151fbfa3452636af675ad73e094b8de3int, 0x837d7f49a61279836f83d55e54b62902bf128fe7dc6c02db1208aa349bca631int, 0, 1);
    let s = lemma_step_modulus(2, s, 0x8e85bf957a05ae0b8eb8b3ed8c295bde60f12d813af072b67a89413fc4131d8int, 0x4f58a66a740f7a5768d275f5829ec3ccb93d2c6a111a26c76f6790a583ff28eint, 1, 1);
    let s = lemma_step_modulus(2, s, 0x86cc604bc544795d939fada2b96106ff11c1e559acae2e4eaff9a47b1c9c9a7int, 0x46fa97f8ef7efe8fecd630ea0fa694296da8d944a5b4265fee9a8699bb2683cint, 0, 0);
    let s = lemma_step_modulus(2, s, 0x779a62a756c1d80911ae7efeb336af2c8575f80d91015f46ee99024b395b765int, 0x37e0e4d26a0123df110f1d4dcbce5ac0de756005c1a6c30b1cc3f1b843ae916int, 0, 0);
    let s = lemma_step_modulus(2, s, 0xcd235f335eea217d6902a67fd409ad43b97f7d9043b5599aba1e9974a3ea27bint, 0xa461ab5b71761868bbce280365f02e11539ec32ca571577aefe9894ccc1c732int, 0, 0);
    let s = lemma_step_modulus(2, s, 0x4c7122c1b05fe7729fcea4adc72649e8f29d582fe042db61937c7b9554647cfint, 0x16d35ea2b46eab7b45ad35a79d09d022b517b10551f8d296cfd91a6ee028e17int, 0, 1);
    let s = lemma_step_modulus(2, s, 0x37c4d402607fba818c31c07e2118c536257c871c1abc5b5234dcb3437b5f22cint, 0xc262a6e58ae959273e192b94882267732c9cd40f74e9ee6e9633243be2da42int, 0, 1);
    let s = lemma_step_modulus(2, s, 0x2b336da8e163d5f489438740aaf407cfc9531632288a1cbec2e3832767984ecint, 0x74a512b9bfa96ff033713364e3c6249a9c4cb0e79f31f66cc1844d67c6e83bint, 0, 1);
    let s = lemma_step_modulus(2, s, 0x51619072e69a972bb2312abe11671da0140c7a18ae28e4fb90fe0ce062f33e2int, 0x19dee2977e820bd0515a16ad6cf3a55f6c55a29c8d3426971bb8e1905b54924int, 0, 0);
    let s = lemma_step_modulus(2, s, 0x4c19053dfed5e48c55fe4f0426aefda03e8f6aa908a54fa366a1b8c0bee7130int, 0x169edd8ed5864071c101550f68454a58b7b0fab68b8f51801db1d30b70936a4int, 0, 0);
    let s = lemma_step_modulus(2, s, 0x2cacbc3d9bbf62eb7e9cd414ca818c1d5f4cf7b49b537e43411a73e80c6a72cint, 0x7cbd542aabd9ec2913862b2bcba3dfc86c21511b06ba275256c54d3ff9f4d6int, 0, 0);
    let s = lemma_step_modulus(2, s, 0xa6128ae7cbda0c964b5a8c96e30bdf828f00ba79cbcf4839df6a0738d386372int, 0x6bbc0d7c70562ca54a445138dcc0191a5e37525f2ab6c659a74f1d76d0b7031int, 0, 1);
    assert(s.0 == 0x9c5c7a67bb0f1fef559a72f9c71nat);
}

/// The first 16 bits of the exponent of the same power.
proof fn lemma_power_modulus_2_part_1()
    ensures
        pow_mod(0x6c111c0a58d76ee16403842119d2e936b5da1fdeb167e3e46097da9c11a3cceint, 52023, 0x1000000000000000000000000000000014def9dea2f79cd65812631a5cf5d3edint) == 0x10510dbda44d46526d168693d5ed6c103f8842fb02963f949a21a71c6efbce9int,
{
    let s = lemma_square_start(0x6c111c0a58d76ee16403842119d2e936b5da1fdeb167e3e46097da9c11a3cceint, 0x1000000000000000000000000000000014def9dea2f79cd65812631a5cf5d3edint);
    let s = lemma_step_modulus(0x6c111c0a58d76ee16403842119d2e936b5da1fdeb167e3e46097da9c11a3cceint, s, 1, 0, 0, 1);
    let s = lemma_step_modulus(0x6c111c0a58d76ee16403842119d2e936b5da1fdeb167e3e46097da9c11a3cceint, s, 0x6c111c0a58d76ee16403842119d2e936b5da1fdeb167e3e46097da9c11a3cceint, 0x2d9e70cd7767d605163d08f672bbd427bad86a5fc7e4e0826abb8774e1a43c5int, 0x4bdd2d4051eaba2a69b185ac440080dc04d61127d1f442f21ec8fe0a00dd6c7int, 1);
    let s = lemma_step_modulus(0x6c111c0a58d76ee16403842119d2e936b5da1fdeb167e3e46097da9c11a3cceint, s, 0xfde95185f8a5a2f5f6c00f848507d8bad9891ea7765ecc4ea97e84c6ee4c66fint, 0xfbd6ffc84d4c0f11ec2f18e8226e10cbce8dd82bf31375267524ad755ee7784int, 0, 0);
    let s = lemma_step_modulus(0x6c111c0a58d76ee16403842119d2e936b5da1fdeb167e3e46097da9c11a3cceint, s, 0x24a4363284261ead8aabe2332698de02a5f373a40c75b087aec841f87ed72edint, 0x53e9893b15d633015668b72f929f101a4082e22d69915ef7d7f069e4f125f5int, 0, 0);
    let s = lemma_step_modulus(0x6c111c0a58d76ee16403842119d2e936b5da1fdeb167e3e46097da9c11a3cceint, s, 0xa5c7fcbddd15a5f0293cd0d1506b114b5d792781e3b19d9e41550cedf67dc98int, 0x6b5b6807a7b1f7a2601eb9dc6226b11c6accf6996895314594b5a1fd2d504adint, 0x4da31696df728dad17f20024b0b85e8c30fb07f178c17cca389bf3d5a80bb82int, 1);
    let s = lemma_step_modulus(0x6c111c0a58d76ee16403842119d2e936b5da1fdeb167e3e46097da9c11a3cceint, s, 0x9d4642863ec59d5a1f9ab00a16dead1a1abeaa8f820c1d11b20dfbbf7808b28int, 0x609f40e11bb235d6437487ecb3025c48be9b9cba24d4db9ad28057ddaa0a8edint, 0, 0);
    let s = lemma_step_modulus(0x6c111c0a58d76ee16403842119d2e936b5da1fdeb167e3e46097da9c11a3cceint, s, 0x1eecc0644e3e95e6666f29df1bf17314706e52c28c9fa4f3c9db143fadbbbd7int, 0x3bc580acbdd8b317a77d3119d5ada52d0fc9de5f0b355ea60bc42b2aa97812int, 0x23848f22a35efa899311146dd854208cbc570f96d764a12b89254c92f3f5b76int, 1);
    let s = lemma_step_modulus(0x6c111c0a58d76ee16403842119d2e936b5da1fdeb167e3e46097da9c11a3cceint, s, 0xcde6a5714d44a82de9bb5f4a7cbdb3ee48de28ba176cc8859aa1739682f81a4int, 0xa59b34c528420c7789901ab5cb5b49781f371c8b3bc880423955d25344423a4int, 0x5c05ac038a073295d8eb3aebb334aa301733190ab5c5fc738ddab472a8a1b54int, 1);
    let s = lemma_step_modulus(0x6c111c0a58d76ee16403842119d2e936b5da1fdeb167e3e46097da9c11a3cceint, s, 0xfcb7eda1029a4e60f2f819178fe4e603279ddd5b75346bdd1b3a379a45a8b84int, 0xf97a9ffa95e50700e830ae2725eef9cf776e719147f2497a39a622746c9dadaint, 0, 0);
    let s = lemma_step_modulus(0x6c111c0a58d76ee16403842119d2e936b5da1fdeb167e3e46097da9c11a3cceint, s, 0x2895f88c61fb65221c664719885ed3592351ad4b87dc626620d0de1d1f5523eint, 0x66f35872358e910c6fe331f4a52bdf7c170a9a5b8182e39686d8524e27b0f9int, 0, 0);
    let s = lemma_step_modulus(0x6c111c0a58d76ee16403842119d2e936b5da1fdeb167e3e46097da9c11a3cceint, s, 0xc62e8f6c811cd30fd13440c36859d0a8ed85b7a44134be60d1be9ded52eb57fint, 0x996c0e53b3116313b687d3fb3a64e30952a53c1f9ec662d5c1306aefe4a0d9fint, 0xcf49ca72e6e623b0fe078bacf2da8469f458b20c1acfb2e26d4611f80c0f8dint, 1);
    let s = lemma_step_modulus(0x6c111c0a58d76ee16403842119d2e936b5da1fdeb167e3e46097da9c11a3cceint, s, 0x5e546858234781d9c0319926302ea2424811589598cd3fb10610b8e123ceb3bint, 0x22c218755e47654b7f91605bce2d8776c40e76f75fc8b833e0fad7995fd12efint, 0x1fb35fe5e64e0f060fd00738d634ae5aedbc2d2c7a3647e202062a32374f258int, 1);
    let s = lemma_step_modulus(0x6c111c0a58d76ee16403842119d2e936b5da1fdeb167e3e46097da9c11a3cceint, s, 0xd08b27a0474baac8b895b3dcf87a0dac352688ebc07f78754cf8b1d8901c3bcint, 0xa9e26c08820a9bc3e26569159798b6b151b0b48f28eaa3715f5fc9fc8d1c08fint, 0, 0);
    let s = lemma_step_modulus(0x6c111c0a58d76ee16403842119d2e936b5da1fdeb167e3e46097da9c11a3cceint, s, 0x9dbeac61efda187cbfda9680abd9bc846a3c4a9878ad91aae736431dc5fd0adint, 0x61336d7475a5498a116608eefcb3a2ec8c2aa0aa6c92076a9dadcac61bc228dint, 0x35ec4c633452b47f13d54a0948d17d8c7bca25eae9e8f9e9868438d3f27a0e9int, 1);
    let s = lemma_step_modulus(0x6c111c0a58d76ee16403842119d2e936b5da1fdeb167e3e46097da9c11a3cceint, s, 0x1dcf158e199d2ce6866b1265535fcc1471618067f94edece773a3e3b743d88bint, 0x37892660f6ba76f0d8d5862856f67f5d3d73e0af2b2298347ba438a4e7c4e6int, 0xc36a4638ae1969a4d3a5b49907b41980486de7db221a508b16c13db9e3e9bcint, 1);
    let s = lemma_step_modulus(0x6c111c0a58d76ee16403842119d2e936b5da1fdeb167e3e46097da9c11a3cceint, s, 0xd923dea1d69315936b1bcc8a63b8b05f718f79953be0b1d8e71ebeacd05acceint, 0xb82dd474ffa31d42842b7821baceaae1dc84d0df3509ff6c491cefbf66287f2int, 0x4a5d4e640d872dbdfec96e24ae605aeb0f5a845992b9d0a88f4104b2fdbf96fint, 1);
    assert(s.0 == 52023);
}

/// The first 32 bits of the exponent of the same power.
proof fn lemma_power_modulus_2_part_2()
    ensures
        pow_mod(0x6c111c0a58d76ee16403842119d2e936b5da1fdeb167e3e46097da9c11a3cceint, 0xcb372bebnat, 0x1000000000000000000000000000000014def9dea2f79cd65812631a5cf5d3edint) == 0x400aeeb8643841b4c150736a8d960a50c3ae3d7e029b93cf5e26bafdb27b3bint,
{
    lemma_power_modulus_2_part_1();
    let s = (52023nat, 0x10510dbda44d46526d168693d5ed6c103f8842fb02963f949a21a71c6efbce9int);
    let s = lemma_step_modulus(0x6c111c0a58d76ee16403842119d2e936b5da1fdeb167e3e46097da9c11a3cceint, s, 0x10510dbda44d46526d168693d5ed6c103f8842fb02963f949a21a71c6efbce9int, 0x10a3b61674870dcaa7d2749fde471f127f34e2c0e9ebca28dfaa9054a1bb0aint, 0, 0);
    let s = lemma_step_modulus(0x6c111c0a58d76ee16403842119d2e936b5da1fdeb167e3e46097da9c11a3cceint, s, 0x9c5abdeb284f347f33039ddff4439491ec4697d9d7df8c7dfd8fa0972ffa5cfint, 0x5f7eb7a0af5df133eae352b824212dea9be31ef2300c5c185f8e46aa8d216aeint, 0, 0);
    let s = lemma_step_modulus(0x6c111c0a58d76ee16403842119d2e936b5da1fdeb167e3e46097da9c11a3cceint, s, 0xba352aa1e405fa1ff66098b4fe892a6e569aeaeb5d4fa0b22049ac06a10144bint, 0x87714cfded7a9f2293f2209e7cea4e9b0089f115f5ce8e95462768df6e2b412int, 0x5a202894ecf3ede78a1be9895f5246e905e61ad2ef1bb8c568c72a1839e04cint, 1);
    let s = lemma_step_modulus(0x6c111c0a58d76ee16403842119d2e936b5da1fdeb167e3e46097da9c11a3cceint, s, 0x61ad158d860f6631d93758250f840396516ad09377c2cec423f6c00b3c76336int, 0x25449f5b62af627d5fea660ee54f58136c949f33c9b8a1b6167aa9cdb965c79int, 0, 0);
    let s = lemma_step_modulus(0x6c111c0a58d76ee16403842119d2e936b5da1fdeb167e3e46097da9c11a3cceint, s, 0x737d4a4f08b94ff8ecd9a22790f2e49b2d9e19bd1cd5207955f6468b42e785fint, 0x3419ce14a896cc4342ca33ec247e3bb731c251d2f3b0eadcfcf8b067b2f2697int, 0x395e792b187eea72e4416a845d51da8b70fbc0141d82387765c5d9d3aca1456int, 1);
    let s = lemma_step_modulus(0x6c111c0a58d76ee16403842119d2e936b5da1fdeb167e3e46097da9c11a3cceint, s, 0x8519496dc6168ff00ffaefc9468f6fb6ded25b85031ee0cd8d0de576b6b8956int, 0x453348cb7c53ec02b412405917facac03df6df7bd05718b91f7a639d22bb3aaint, 0, 0);
    let s = lemma_step_modulus(0x6c111c0a58d76ee16403842119d2e936b5da1fdeb167e3e46097da9c11a3cceint, s, 0x2d779bb2ad6d3cd9e2c512583690669279d9a25375bde5d901831045a54b682int, 0x813449eefc77dab155f661f6bf6256901efd03cbb730458032339dd622daa9int, 0x35ae654cbd40d33cdea67e0ab97630aa86fec3e4c27a8097383070a38afe52aint, 1);
    let s = lemma_step_modulus(0x6c111c0a58d76ee16403842119d2e936b5da1fdeb167e3e46097da9c11a3cceint, s, 0x82ca7744614ceff9d7599c986b2839610e2083921c40fe7564100b8f8c67130int, 0x42d24141e24c55ddd1f40460570d14278aa2f59583df5ed674967a17cc61b76int, 0x650171bc320aa8b30d2bf68c7d57205e92d9784570b1963f42cf81d875fa193int, 1);
    let s = lemma_step_modulus(0x6c111c0a58d76ee16403842119d2e936b5da1fdeb167e3e46097da9c11a3cceint, s, 0x110cc8e11761d6a3a5a31b1f2a66c53538bde7bc851e9b66cc21cdea9760205int, 0x122b35157d5aa20d6d4e9527560d4dfdb4a0e383d7d1dad33aa8edef24f971int, 0x594ed95713e3fc9b374aaa012b0b064eb8f169d6ac563473ca6708b47880169int, 1);
    let s = lemma_step_modulus(0x6c111c0a58d76ee16403842119d2e936b5da1fdeb167e3e46097da9c11a3cceint, s, 0xd8364158531bc4b761bc530229df8e14163607f73a4a04b19c3b8c4730c0493int, 0xb69b99c4ae2fe459ca4269cd7e6b216360df24563ce4e68e03b54c1d55b358dint, 0x607537053f5f4713b7c40d12dda335e6f86505ab7b0c988f2ca865c55def946int, 1);
    let s = lemma_step_modulus(0x6c111c0a58d76ee16403842119d2e936b5da1fdeb167e3e46097da9c11a3cceint, s, 0xcff55ef9b4b69c7fe67b80a6af2f13afb8dafa1da42f6656b9c7b134ebc4a72int, 0xa8eebac6bf6f8ae589468ed99eb9a42ab128df6deb601cf6c8817afdf0c81a2int, 0x5dd821725f915227fb9f7e6d4cb42b0643247d71e3726331ce214c93a8c753bint, 1);
    let s = lemma_step_modulus(0x6c111c0a58d76ee16403842119d2e936b5da1fdeb167e3e46097da9c11a3cceint, s, 0xe9d85c154a93e38be06c69a959586b0e30855a7f8b34643bf88996a32f77fedint, 0xd59b8e7a46ce5d243819c2854ac88c189913cd407a2e8df70793f4459e425b0int, 0, 0);
    let s = lemma_step_modulus(0x6c111c0a58d76ee16403842119d2e936b5da1fdeb167e3e46097da9c11a3cceint, s, 0xa850f6c4e6425c8f6f9d1585d9f8c4f0a88804a45c4d3baf99906631a8c0d79int, 0x6eaa5d7d972604ef0ac0a41787a02a18a8fbfdfc8306afec06f091e7efc461dint, 0x4995d07883aa8e7118b98ff9f30a4fe6e0b4a975de4746e74b134186810b779int, 1);
    let s = lemma_step_modulus(0x6c111c0a58d76ee16403842119d2e936b5da1fdeb167e3e46097da9c11a3cceint, s, 0xea89d4c4af02c9c2b0089cd5aa7f9b446cd02998cff240903bffbeaf2f5acbint, 0xd6e0432cfb4ac2ccee445d7a3c0da107f93f7253ae6043dd80584782f093dint, 0, 0);
    let s = lemma_step_modulus(0x6c111c0a58d76ee16403842119d2e936b5da1fdeb167e3e46097da9c11a3cceint, s, 0x53aa4a02c2b7550abe4bd34369b9993223af1b25b301679de7a37fe35338880int, 0x1b57dd442b53153b85cbd2101570296ec5d1cbed344578432e0e4ded3d25982int, 0x2e247f7132fd2f5a60e608267013c7bf6f3960a094a7f1b3bd6a790e93e9502int, 1);
    let s = lemma_step_modulus(0x6c111c0a58d76ee16403842119d2e936b5da1fdeb167e3e46097da9c11a3cceint, s, 0x73a438ed39f2134e67ee477cbc4f9ad391b9334d0fda36594c19c88ead31cbaint, 0x343cf47e1eaa60af6d9cfbabc371103540ad4e6d33284ae2502a51083a21377int, 0x54f21187dec8ddafa2721dd487fc2cd4e5cfaf49d57228de122022f666e974fint, 1);
    assert(s.0 == 0xcb372bebnat);
}

/// The first 48 bits of the exponent of the same power.
proof fn lemma_power_modulus_2_part_3()
    ensures
        pow_mod(0x6c111c0a58d76ee16403842119d2e936b5da1fdeb167e3e46097da9c11a3cceint, 0xcb372beb854bnat, 0x1000000000000000000000000000000014def9dea2f79cd65812631a5cf5d3edint) == 0x5425c5dd6e3e84c52f530ab4339e2800398f376b3363a1ac69aa5214260352int,
{
    lemma_power_modulus_2_part_2();
    let s = (0xcb372bebnat, 0x400aeeb8643841b4c150736a8d960a50c3ae3d7e029b93cf5e26bafdb27b3bint);
    let s = lemma_step_modulus(0x6c111c0a58d76ee16403842119d2e936b5da1fdeb167e3e46097da9c11a3cceint, s, 0x400aeeb8643841b4c150736a8d960a50c3ae3d7e029b93cf5e26bafdb27b3bint, 0x100577d3b71f5468550ddef7cc56d478a1114731b632dbd67e32d11136cc9int, 0x65fd9ec9680b89972b0b68e20b90a5c35fdcc7ec8414ee223bda4882bb30f35int, 1);
    let s = lemma_step_modulus(0x6c111c0a58d76ee16403842119d2e936b5da1fdeb167e3e46097da9c11a3cceint, s, 0xe261cf6e4f4104b9254cbbcb0164d9cc8f5279b79f41c9950c09e2ba30e3b27int, 0xc830d79d9d9a6f4fd4366a948f11699f7bfb49cb537e752029f3e9d7729c849int, 0, 0);
    let s = lemma_step_modulus(0x6c111c0a58d76ee16403842119d2e936b5da1fdeb167e3e46097da9c11a3cceint, s, 0x2e55f02c61b122a4483f01e78fb3294cb55ed23f5b637c538c3c0d8844f695cint, 0x862ff2951e7c6f1e62e4546df405809c4edd9f04eeee43d2e2e027f16f4c0eint, 0, 0);
    let s = lemma_step_modulus(0x6c111c0a58d76ee16403842119d2e936b5da1fdeb167e3e46097da9c11a3cceint, s, 0x1d57eb9f8960835c201e46d806f8f828e379aaf4e9d16de961a254b0105a61aint, 0x35d0994246d86ff48ab7103f6f5ab261b97a27d3c3f60a311fcbdb2b2022c3int, 0, 0);
    let s = lemma_step_modulus(0x6c111c0a58d76ee16403842119d2e936b5da1fdeb167e3e46097da9c11a3cceint, s, 0x4222a83b55c06f1d2bd24a5f10e3ae383843f0396ff19649c7bc1285ac3d31dint, 0x1115e36fb687eeb5c39aed9b3596a071ccb8bdfacbceabe0dae119520c896bcint, 0, 0);
    let s = lemma_step_modulus(0x6c111c0a58d76ee16403842119d2e936b5da1fdeb167e3e46097da9c11a3cceint, s, 0x45e1e1c65710befea08ebd37dcd33f5e7e0769c40cc745049894efb306a513dint, 0x13138b0390b2511b396297ed7e18fa1da735b322ee4785620c47aeaa94346e2int, 0x671e78aa3a64fa43e1979353f15eee07c429846ae74a9282b6e1672d3ba9f2aint, 1);
    let s = lemma_step_modulus(0x6c111c0a58d76ee16403842119d2e936b5da1fdeb167e3e46097da9c11a3cceint, s, 0x7bb7e63b3d83c11cfbfc6297df6cf3f692a628186deb4e9420979983a6ab5b0int, 0x3bca3b57e4dd0e2e1a17ef8f92bf5a301bdad966ea1c47ff377de818b430919int, 0, 0);
    let s = lemma_step_modulus(0x6c111c0a58d76ee16403842119d2e936b5da1fdeb167e3e46097da9c11a3cceint, s, 0xdbada01c2c49f221c1ba3c3fac7694ba4c4c7bc1dffc8bed2b2ee21d83651dbint, 0xbc8285b1fdfd9aad299522ed220b17e09e6888c08edae5e88b07c108b5850c2int, 0x5921fe5d0fdfcc2659328140a34332a8d34ef88c015f7a4d269f66e90382e1int, 1);
    let s = lemma_step_modulus(0x6c111c0a58d76ee16403842119d2e936b5da1fdeb167e3e46097da9c11a3cceint, s, 0x2ac1a10d22eead7353ca84d12edaa944950c67cf0d6b78bbfe18ff2a6132265int, 0x7241b4c8a968368268fbca5be9faa761c65cfb79260b424c0c3ecfb88f1a5aint, 0, 0);
    let s = lemma_step_modulus(0x6c111c0a58d76ee16403842119d2e936b5da1fdeb167e3e46097da9c11a3cceint, s, 0x1b5806e753c40616740b8fb756669167380442fc0b836fed198ca00bc476887int, 0x2ebafb98ae49902635ef44553a53e6818f9ee36f17752e1e15a210e8e1f6d3int, 0xf61e407775f4b7533309ff73ec656deeb73152c074864ade8fc5b86bbe5d42int, 1);
    let s = lemma_step_modulus(0x6c111c0a58d76ee16403842119d2e936b5da1fdeb167e3e46097da9c11a3cceint, s, 0x2432668aed756e5758b9bbcd47ce80faf124c041d3965b21bbb273cfa86b352int, 0x51e36c34a20c9861dde1a6a87f65d07b390bc366b0e18cc67b691f948d3a7bint, 0, 0);
    let s = lemma_step_modulus(0x6c111c0a58d76ee16403842119d2e936b5da1fdeb167e3e46097da9c11a3cceint, s, 0x46a606fd8b395d0d0e99d0a76e4456f7e7612660b842302fa1a03445ca4165int, 0x137f377fb924caeafc60edfafabcaaa6641d5411eb0e698f07315ac18e8d4int, 0, 0);
    let s = lemma_step_modulus(0x6c111c0a58d76ee16403842119d2e936b5da1fdeb167e3e46097da9c11a3cceint, s, 0x2fd26aa384efc5561f9dae8a0dd326bb5d8cbf2a6a7de6c8773c71fd83e2995int, 0x8eef01b2b81f65e7eb086b6c2701bf0f78f59e5776fd86956a6d5335a42ad3int, 0x5b45428032d6aa85114af8a41d8ac81dc99c448d9192da13bac5ec167d3d826int, 1);
    let s = lemma_step_modulus(0x6c111c0a58d76ee16403842119d2e936b5da1fdeb167e3e46097da9c11a3cceint, s, 0xd96206a99797f30326eb5db9c180919e5015e03c3ec6d6a4630f94536bb75aeint, 0xb89754d49d040dc6062c6bf363bb1fc6e989f68fa91dcbcc46e6ab8ce0837ceint, 0, 0);
    let s = lemma_step_modulus(0x6c111c0a58d76ee16403842119d2e936b5da1fdeb167e3e46097da9c11a3cceint, s, 0xc1701d5f464891c617a4d98af11c11ed0ff2175e0b5f8d640eff4f7968c0e8eint, 0x922a3d635eb5a4adeb2a16ed661faf195f562810a71413092a518e24e0a95bbint, 0x5815fd99e8c16b34b000fb70faa279e53f6b026b0470c1f5c20123ccb4164fbint, 1);
    let s = lemma_step_modulus(0x6c111c0a58d76ee16403842119d2e936b5da1fdeb167e3e46097da9c11a3cceint, s, 0xcbfab7211de53860711ef98c07c0697bb65ab5b9b1053a09ca0a31fe255567int, 0xa28793f8b51848217ef436deaf22900d3fe7d84470111e9566f743ffb6384int, 0x68f72de476640196387019899b464841f92312c0941491c2f8239bd05afc54int, 1);
    assert(s.0 == 0xcb372beb854bnat);
}

/// The first 64 bits of the exponent of the same power.
proof fn lemma_power_modulus_2_part_4()
    ensures
        pow_mod(0x6c111c0a58d76ee16403842119d2e936b5da1fdeb167e3e46097da9c11a3cceint, 0xcb372beb854b7ca4nat, 0x1000000000000000000000000000000014def9dea2f79cd65812631a5cf5d3edint) == 0x20c91269579f1cb283ce175c0eed0077644ba0a78821ad4401aac2bd4af5d43int,
{
    lemma_power_modulus_2_part_3();
    let s = (0xcb372beb854bnat, 0x5425c5dd6e3e84c52f530ab4339e2800398f376b3363a1ac69aa5214260352int);
    let s = lemma_step_modulus(0x6c111c0a58d76ee16403842119d2e936b5da1fdeb167e3e46097da9c11a3cceint, s, 0x5425c5dd6e3e84c52f530ab4339e2800398f376b3363a1ac69aa5214260352int, 0x1ba8cf6c1b49706787d0adaee6dac2a5a7a061b149b3ba8292c249cbc5b79int, 0, 0);
    let s = lemma_step_modulus(0x6c111c0a58d76ee16403842119d2e936b5da1fdeb167e3e46097da9c11a3cceint, s, 0x6bb02a778924a351d165e0c178a67eee5c1ee27b094189881bc2d306bd09c3fint, 0x2d4cbcba580ca3b7c4aa00c8c8aabc828d9bb9d228c5645eea9150a03914b90int, 0x27dac01efe29fd1bad5e98489882b98e66677b5ebe1d236a2b5faa9a70df19cint, 1);
    let s = lemma_step_modulus(0x6c111c0a58d76ee16403842119d2e936b5da1fdeb167e3e46097da9c11a3cceint, s, 0xf6078f95bd55a9c9354b8ee2df1f500d00f27e4017d83011c2908e733266c02int, 0xec72882cf2999e19a0dc27dd91b866953e7e337d010935ddec3b1d76f4cd8d1int, 0x3a1c9fceb6a21f5252682433f9314f2418493d81779b82fd3a6b69b4fc22db6int, 1);
    let s = lemma_step_modulus(0x6c111c0a58d76ee16403842119d2e936b5da1fdeb167e3e46097da9c11a3cceint, s, 0x736ae49e902d0cde821dbd1eb034d431cb6447a43cb29a10ad211176a14c724int, 0x340936089502b1e518e5695f9e8e4ef387bcf1bf7359e69e185875959dd773cint, 0x3333a5c873b8f72da8ce9919116e344acf63954a6acb81d85a16798b83f483eint, 1);
    let s = lemma_step_modulus(0x6c111c0a58d76ee16403842119d2e936b5da1fdeb167e3e46097da9c11a3cceint, s, 0xea4beda685329697cc4bc204be8a4421c4c13410866bc3c2883aa9b3aa8f2d2int, 0xd66ee4f987b045e26c2a2aae78c1931fd0d5c6286a71f48442dc580a726d2afint, 0x27f64098d15f18b9fdf037ba459fabd17bd7bc9bd1c50aba795a76cb871518int, 1);
    let s = lemma_step_modulus(0x6c111c0a58d76ee16403842119d2e936b5da1fdeb167e3e46097da9c11a3cceint, s, 0xb61a43bbafac9ad26fdbed713327b35244a86cce950577cb1fc1018fa1c3b16int, 0x81895b00b1d4e2c1218d3451d6a7d4e864a4c5281b133024fc4324b97fe824fint, 0x1c192e6ab8982e26e08ed16fb07bc559399905ca81b9291ba6551994314621cint, 1);
    let s = lemma_step_modulus(0x6c111c0a58d76ee16403842119d2e936b5da1fdeb167e3e46097da9c11a3cceint, s, 0x2ba858471f659924df848e2f1f5e5779e7841fa985827a502f39818fc393562int, 0x771fc5be0565023aaf9f546b081b26da9b476491a0bfcb2841793f4020f478int, 0, 0);
    let s = lemma_step_modulus(0x6c111c0a58d76ee16403842119d2e936b5da1fdeb167e3e46097da9c11a3cceint, s, 0x7c915c8324a0bb83c6158291eadb5883e58e77413ffeb5760373b4321ec7e6cint, 0x3c9d2428f979b93e1baf73bf72747b31c153a812b5acba1741ba7ad9b70e99aint, 0, 0);
    let s = lemma_step_modulus(0x6c111c0a58d76ee16403842119d2e936b5da1fdeb167e3e46097da9c11a3cceint, s, 0xb793aa558bbb6a94d2e9d4ee98f80f1b5dadf9e95417d782483d61b4d1a4bfeint, 0x83a472b35d5a25c82cbc04dcc5a0401b3597ad0a041ccf0bdfbcf8e7a7121eeint, 0xd243d9d0d80f35ac5502c3703700fb97e4485097e32eb8f20f58f3297d5655int, 1);
    let s = lemma_step_modulus(0x6c111c0a58d76ee16403842119d2e936b5da1fdeb167e3e46097da9c11a3cceint, s, 0x6cd9e0cb225af4688542ffc772513141302ed37730bd8c8bf9e5259dcc1a053int, 0x2e488f1a42c119b93635439b06ade552bdbe54858e2c9cf3a8c2e4d70e7cb60int, 0, 0);
    let s = lemma_step_modulus(0x6c111c0a58d76ee16403842119d2e936b5da1fdeb167e3e46097da9c11a3cceint, s, 0xbfb4cad54d3e3a150c1db6c997a3e4d6e07c9ad68aadd01bd962f4b13767309int, 0x8f8f465825ecc9ccea31bcbfc2556648f4e3f5b59f17d009366550cc060c13cint, 0x4e77a5ed7dcf1b04c92186ac03be8dd73c17f8a599bd07f772585da9f659bb2int, 1);
    let s = lemma_step_modulus(0x6c111c0a58d76ee16403842119d2e936b5da1fdeb167e3e46097da9c11a3cceint, s, 0x592489d5827a132eadddec9f947cbaec56f2292725fc4a5e2179f37833406bcint, 0x1f0a6d0d82fbcb64e4314c680f321db0d3edd9a4a457a8f9bf06bd98a198efcint, 0, 0);
    let s = lemma_step_modulus(0x6c111c0a58d76ee16403842119d2e936b5da1fdeb167e3e46097da9c11a3cceint, s, 0x2b3c5f99cddb0698a161fa6f1d6e8b8c80a15abb136dc2ae7d83d96d2de46c4int, 0x74d565a9ef39612a1fe3e3b12bb4aa4de5388f3b17c33f2579ae039fb2722bint, 0, 0);
    let s = lemma_step_modulus(0x6c111c0a58d76ee16403842119d2e936b5da1fdeb167e3e46097da9c11a3cceint, s, 0x887ddeb21f3e49d709584a3cd02aaceb318b0a681469e43fe6a7ca0bc0ba341int, 0x48c5fa807cde1b68146cb76129d197b59f7eb858e974c78b3938deaaa99074bint, 0x108a2857abe062da935ef4ba9bacbc56d97eab034f45ee3efacb24719182e40int, 1);
    let s = lemma_step_modulus(0x6c111c0a58d76ee16403842119d2e936b5da1fdeb167e3e46097da9c11a3cceint, s, 0xda5de7ba2b96430a37a61bc2d5413b1f45f4300613cd3d4b1aeda4629c23b3cint, 0xba44111b41411766a6f503f6b2755b9433f0f10f5792e4ca9aa112bec3e9ae9int, 0, 0);
    let s = lemma_step_modulus(0x6c111c0a58d76ee16403842119d2e936b5da1fdeb167e3e46097da9c11a3cceint, s, 0xe94f224510475923837b418865b166391cd22d32410dad804bd785c004415bint, 0xd4a124d7e2d85740646dfe755a514b023a4cbb7fcf937c7a05b957367e6aeint, 0, 0);
    assert(s.0 == 0xcb372beb854b7ca4nat);
}

/// The first 80 bits of the exponent of the same power.
proof fn lemma_power_modulus_2_part_5()
    ensures
        pow_mod(0x6c111c0a58d76ee16403842119d2e936b5da1fdeb167e3e46097da9c11a3cceint, 0xcb372beb854b7ca43b67nat, 0x1000000000000000000000000000000014def9dea2f79cd65812631a5cf5d3edint) == 0xd67c44f5ab7f4661c1cf7b1e63eb630ec0c5509e5864af7ddbe99d3deadb935int,
{
    lemma_power_modulus_2_part_4();
    let s = (0xcb372beb854b7ca4nat, 0x20c91269579f1cb283ce175c0eed0077644ba0a78821ad4401aac2bd4af5d43int);
    let s = lemma_step_modulus(0x6c111c0a58d76ee16403842119d2e936b5da1fdeb167e3e46097da9c11a3cceint, s, 0x20c91269579f1cb283ce175c0eed0077644ba0a78821ad4401aac2bd4af5d43int, 0x432e28840a65ab30fd2acd6cb3023185ba0460571f1d313fbef0c6c9b6e458int, 0, 0);
    let s = lemma_step_modulus(0x6c111c0a58d76ee16403842119d2e936b5da1fdeb167e3e46097da9c11a3cceint, s, 0xcd8494b0c3871181b0504afedf45ec91bf8f0f429cec102728387c6f6d5d211int, 0xa4fd9accc5ccd1755d6b7d07d81ecfa59ad217ee234173cb5433ca656ee9ac1int, 0, 0);
    let s = lemma_step_modulus(0x6c111c0a58d76ee16403842119d2e936b5da1fdeb167e3e46097da9c11a3cceint, s, 0x9d0daafb01a66cda463cc868c7c5f8b93bf3e1e7276a3970562f6654d828d74int, 0x6059c472afb6a0b80d3fc25662f1b9bc5a8bacaa4e08cce0b96332977842be9int, 0x2a1e27ad34a372aa892adf0a8c53b273df9854c5ae83b3d555247cb4e6fd80eint, 1);
    let s = lemma_step_modulus(0x6c111c0a58d76ee16403842119d2e936b5da1fdeb167e3e46097da9c11a3cceint, s, 0xaf63ed2e484e04f9334b21c36f17ded92cd84100c31a7b8961ee8aefd850144int, 0x7829c54694655163128991600f5cce0676cdab87cd39ef6252a911f9c37bbcfint, 0x458082363bdf2eaebaeb0b6d4040ba74ce771a1a118db65f32a74fc87b02898int, 1);
    let s = lemma_step_modulus(0x6c111c0a58d76ee16403842119d2e936b5da1fdeb167e3e46097da9c11a3cceint, s, 0xb484706bc4eafc306cc9cf71a89082f740c46891eefe63e7a8e0aab6c152afeint, 0x7f4a829bad6bfea3fb7dd55d70032f9f079fa550888b7fcfc144d6ce3188f45int, 0x3610ecb6982aa308fee5e892fbcda3498e8fb4bda4133f723394318ea217cbfint, 1);
    let s = lemma_step_modulus(0x6c111c0a58d76ee16403842119d2e936b5da1fdeb167e3e46097da9c11a3cceint, s, 0x8a470f8e98f5d767038ba9ec96bc9fb7a452c6eb0c60af7ef2ab98f714a6257int, 0x4ab0b07f5ef3e9f366546f3df53a09782b44913205c71f3224be8511258450dint, 0, 0);
    let s = lemma_step_modulus(0x6c111c0a58d76ee16403842119d2e936b5da1fdeb167e3e46097da9c11a3cceint, s, 0x7b4653bc4e483adeda1ac228c574047ca6da042d16c0b64e06624d650001588int, 0x3b5ca7c8d997dd583fa80e340509cdde5bd7a5cbfa28018804a6b8ccbf409f6int, 0x61a6cbddbc3c029b71eb522270d478a10b6334f00cb18dfda26033f089be709int, 1);
    let s = lemma_step_modulus(0x6c111c0a58d76ee16403842119d2e936b5da1fdeb167e3e46097da9c11a3cceint, s, 0xa862c1f9b6a0f52bb95fcb95efc71ea167a8effefd464b614e11dc19922e847int, 0x6ec1c4b0d5dd8df891d9c6eb43dbaf5e3d222668e3fe0bffe5df24c512b92d4int, 0x5080373685ec50d4e988aac588b719fd52e2516b5f5e1eeae14d1f4a7d2877fint, 1);
    let s = lemma_step_modulus(0x6c111c0a58d76ee16403842119d2e936b5da1fdeb167e3e46097da9c11a3cceint, s, 0xcb7ff233c677cbeae695f8c369d08aeb1acbdbc2391ffe9da7a266b9cd1e423int, 0xa1c42a105146d5f607e3845cb947089c0e39a12a0adee5d0e9b94fe3e09dc1fint, 0, 0);
    let s = lemma_step_modulus(0x6c111c0a58d76ee16403842119d2e936b5da1fdeb167e3e46097da9c11a3cceint, s, 0x4d599b60f54004ec0b5ac904e2b93e4ebabca7e76ebb461ddd9d430973b0716int, 0x175f06d5bb41972dcbe1a2436d256ea68f8c8cc672e29c78113bde8a17134a1int, 0x2c8401c5d10cb94a5ca642f1d75d9149d4ad6128fbaeb00b3e8d739bfefea70int, 1);
    let s = lemma_step_modulus(0x6c111c0a58d76ee16403842119d2e936b5da1fdeb167e3e46097da9c11a3cceint, s, 0x19559f9d0e4d6c77e1966150501b0bd092891711e1853ce5b74f1baacbc7552int, 0x281d5d00e9b16b82a2bb169590f1fde217b7eb93dbf573bd878ff72e7c8846int, 0x45afbef4412ea81659aa00de21a693dfab4dc0b93aa91959a3937613aa55455int, 1);
    let s = lemma_step_modulus(0x6c111c0a58d76ee16403842119d2e936b5da1fdeb167e3e46097da9c11a3cceint, s, 0x4fd77047a0a2ceb3f60b410a09a23bb2ad1bb9150a3efec0decb2862536ef43int, 0x18e6ac99feb30da3381a4212fa2cc15eb255b11fdaf68ffa8a11b82ea97b081int, 0, 0);
    let s = lemma_step_modulus(0x6c111c0a58d76ee16403842119d2e936b5da1fdeb167e3e46097da9c11a3cceint, s, 0x4ff4be54c178d8293fc9b51916ca2c54413ca906013d539cc045cd4b184711cint, 0x18f8f773ae7b4f046e629b018873e17eeac42d4c07a2d1461004b4f9ca78642int, 0, 0);
    let s = lemma_step_modulus(0x6c111c0a58d76ee16403842119d2e936b5da1fdeb167e3e46097da9c11a3cceint, s, 0xe3be82e859e2c6c4762f7834a226af16a3b6010ead2323f4b373f343ef009f6int, 0xca9b69eea33e674cd1aee0da5932cafda674cb8e192fc47a4f2190eebcc28a0int, 0xb882771e320e1f3a416951a5a95af7f711ab480d93189974d62d473f62d034int, 1);
    let s = lemma_step_modulus(0x6c111c0a58d76ee16403842119d2e936b5da1fdeb167e3e46097da9c11a3cceint, s, 0xe16b67aac8ea5daf3d336ad2a0042ed842a4fd4a66a39572c2775c657cbd294int, 0xc67df94a07eacc34666803af67dd7daaa7e000fd654ba034f6fce0958fe71b9int, 0x5f2e97ff8edcbd6f98c14562e28525cc9ba9519b38ea15c4d5c317bfcabf81eint, 1);
    let s = lemma_step_modulus(0x6c111c0a58d76ee16403842119d2e936b5da1fdeb167e3e46097da9c11a3cceint, s, 0x91fe82521ffc6b35c15cc2a71c76f334ac3a7be05197f65be49d8d35a0d3e94int, 0x53424ca7e58aed2c824d2a3fea88c833c54c48431e75e4e42506402a115df38int, 0x15782a714c3f560f8c345322ae00fb3ddf379b53c14d3fdf30ce3eb29b384e7int, 1);
    assert(s.0 == 0xcb372beb854b7ca43b67nat);
}

/// The first 96 bits of the exponent of the same power.
proof fn lemma_power_modulus_2_part_6()
    ensures
        pow_mod(0x6c111c0a58d76ee16403842119d2e936b5da1fdeb167e3e46097da9c11a3cceint, 0xcb372beb854b7ca43b67ea6enat, 0x1000000000000000000000000000000014def9dea2f79cd65812631a5cf5d3edint) == 0xfd10d8a29c7b718928ed8cea7d0059b71af2d1c2ffc6d75b616d968601e58c6int,
{
    lemma_power_modulus_2_part_5();
    let s = (0xcb372beb854b7ca43b67nat, 0xd67c44f5ab7f4661c1cf7b1e63eb630ec0c5509e5864af7ddbe99d3deadb935int);
    let s = lemma_step_modulus(0x6c111c0a58d76ee16403842119d2e936b5da1fdeb167e3e46097da9c11a3cceint, s, 0xd67c44f5ab7f4661c1cf7b1e63eb630ec0c5509e5864af7ddbe99d3deadb935int, 0xb3b3ff9d9b4a5bd4f09e9036c64b388cae44c089cca8905869c7c943f089ef7int, 0x2286db12076dfc3bac7e6bea57d21ed885ebe9412ac1f4dcfa55bab94bb9c59int, 1);
    let s = lemma_step_modulus(0x6c111c0a58d76ee16403842119d2e936b5da1fdeb167e3e46097da9c11a3cceint, s, 0x13c0d48222513f1a2af153828ebbeb85368b4e6b2a9d796f47805224322b35fint, 0x18630cac4b35439f94158a1e5f4368c4eb8e2b0bf2d76389cd5cbfb8c2debbint, 0x27ba12dcb9eaea228c9128d491b32cadbd3b6cb95da5488bc549c21e1778196int, 1);
    let s = lemma_step_modulus(0x6c111c0a58d76ee16403842119d2e936b5da1fdeb167e3e46097da9c11a3cceint, s, 0x2860ae9ee57d82b5be7e1054af9d15848aaad0a5019b086752a29aba394777eint, 0x65e5b1515ffb991862c7453473aba9e3f106b400db99352a3ca6e694b29a5cint, 0x3b2e1bdcec7e1afaf1d8251353cf3bc4e6ddf29d6b0d9025df93fd4e8132d79int, 1);
    let s = lemma_step_modulus(0x6c111c0a58d76ee16403842119d2e936b5da1fdeb167e3e46097da9c11a3cceint, s, 0x375868e84a0d9286c17a5b46597e1ba570efd73bac3f07c41180459c18a0dcbint, 0xbf71b9c1a824d3bf8da82373028ad9d53011ba0099021e515853372ec23ed5int, 0, 0);
    let s = lemma_step_modulus(0x6c111c0a58d76ee16403842119d2e936b5da1fdeb167e3e46097da9c11a3cceint, s, 0x5636da8bf96c751b3ec8d68acb881136029d4b0a1d98840bd38da7e42384c8int, 0x1d08e696f934c9c53beb2926037c3b6d10a625cc8d0efefc0778826b39eb7int, 0x3dce632529e04ab05af4586ff089d219313771fa08098c14f876e8906c3e84aint, 1);
    let s = lemma_step_modulus(0x6c111c0a58d76ee16403842119d2e936b5da1fdeb167e3e46097da9c11a3cceint, s, 0xcde05b21cb09acb7764e9ac45e1a1474b37e3d14d49ed78fa6ea50b2cd40ee4int, 0xa5911693bac1da5aeeda3b1e47b3f95af30f81c4668cfdf9ec35cd4643356dcint, 0, 0);
    let s = lemma_step_modulus(0x6c111c0a58d76ee16403842119d2e936b5da1fdeb167e3e46097da9c11a3cceint, s, 0x7c6c14037fe6157e35cd223196d04834ebf09f73b4e63716a488676c5d2fd64int, 0x3c78e104486b5afc99426fb00e0fb9fd441652bcdb05643c2a4f7e73c27a57dint, 0x35525abb0021a3874874a7d4980150779c32d273872d158cdcbdee067e0e12bint, 1);
    let s = lemma_step_modulus(0x6c111c0a58d76ee16403842119d2e936b5da1fdeb167e3e46097da9c11a3cceint, s, 0x8fad30fde2530fd0bd22bfc89149085b3536d82f5c5da2f2cb6c372aa110e33int, 0x50a2f1e6e35ce096d99ebf9bf6445c79c8471e4ebc595fc53497aa780f0789fint, 0, 0);
    let s = lemma_step_modulus(0x6c111c0a58d76ee16403842119d2e936b5da1fdeb167e3e46097da9c11a3cceint, s, 0xb8d4c9aebe1e00ca604a11b76b36d3b54687e641ec5027f224dd46f7959e5f6int, 0x857292c9d999e0a654d15f24ccc7a278e5c5c9502c95acb91b0f942f732e23dint, 0, 0);
    let s = lemma_step_modulus(0x6c111c0a58d76ee16403842119d2e936b5da1fdeb167e3e46097da9c11a3cceint, s, 0xca84169d7440d49fda57b7caff7552f0449f288923e748b032e935804a94eebint, 0xa034b7d7cfd5a33a7a46af36a610baa37bda8596883ae683f6f7a039bef6bc7int, 0x2e342ac9e76f0ba03b28d76d7089a9b18121229b5245b7059932bedb1f31f5bint, 1);
    let s = lemma_step_modulus(0x6c111c0a58d76ee16403842119d2e936b5da1fdeb167e3e46097da9c11a3cceint, s, 0xff4b6577500855d3a29a5bc282a06b5a417abe3e3bbc473f03e05629a779725int, 0xfe974a584d90dc9ffc6ec837fbbdc5b2af8b6635e8caf3ae0649bb828b032f8int, 0x1eb3c516970f6f522700271d61489fcf2691b270cd7c50f282d553e4ecb2084int, 1);
    let s = lemma_step_modulus(0x6c111c0a58d76ee16403842119d2e936b5da1fdeb167e3e46097da9c11a3cceint, s, 0xacbb1de11324eb1655a93498a5c3b748574862ec7216ac7e8fd82d73e1b3b1aint, 0x748bf8eb1c08580e7b5350c325fb6cb50a58f3d85a1484cb791c3cb95c94895int, 0, 0);
    let s = lemma_step_modulus(0x6c111c0a58d76ee16403842119d2e936b5da1fdeb167e3e46097da9c11a3cceint, s, 0x9cd07fc2dbf577dbb01e0cf4620341ec6fe40ef68fdccf7f83e2369885cfdb3int, 0x600ec585587b83862d9658c424e9d7383bb305d562026dd6cdfd827978f04f6int, 0x56f8970f3da579083b024a29c601fc18e2946d1a254f6f8f927a91537409110int, 1);
    let s = lemma_step_modulus(0x6c111c0a58d76ee16403842119d2e936b5da1fdeb167e3e46097da9c11a3cceint, s, 0x5bc2cbe2e0b6884a74b8e97386c3165e914701a8864d7ca3c867880e522dc4aint, 0x20e4112cf1fff2fe83830775ac511a6a91e58441966371c6438795d271819adint, 0x3cbbe64b3ef9f3febc80cf7188bc0e86e4fb08fe32e13ad20b1c190c2268e78int, 1);
    let s = lemma_step_modulus(0x6c111c0a58d76ee16403842119d2e936b5da1fdeb167e3e46097da9c11a3cceint, s, 0xdd43b288d37a806f82e5fed6dfaf3fc10e4650cfd7a5914da5ba2cda7d4b462int, 0xbf3df4272d42c3177dd6513bc9eed5f0f5d8d782a37b1979686b454ac540f70int, 0x568c526daef27758e22c7abb580277a190194a565ec6ed215abc2f242955e03int, 1);
    let s = lemma_step_modulus(0x6c111c0a58d76ee16403842119d2e936b5da1fdeb167e3e46097da9c11a3cceint, s, 0x9940f31bcb47fbf79c1af516c0c068659beae031e2d47d5a826c4ba617b44d1int, 0x5bbeb311adbf761b1f58bcde45aa14f89e6730023166da734d3493e4313bbe7int, 0, 0);
    assert(s.0 == 0xcb372beb854b7ca43b67ea6enat);
}

/// The first 112 bits of the exponent of the same power.
proof fn lemma_power_modulus_2_part_7()
    ensures
        pow_mod(0x6c111c0a58d76ee16403842119d2e936b5da1fdeb167e3e46097da9c11a3cceint, 0xcb372beb854b7ca43b67ea6e032anat, 0x1000000000000000000000000000000014def9dea2f79cd65812631a5cf5d3edint) == 0x7491d61f79b83fd2d39cdda99aee12a0c98cba5f3c10939c2cfcc483bc06992int,
{
    lemma_power_modulus_2_part_6();
    let s = (0xcb372beb854b7ca43b67ea6enat, 0xfd10d8a29c7b718928ed8cea7d0059b71af2d1c2ffc6d75b616d968601e58c6int);
    let s = lemma_step_modulus(0x6c111c0a58d76ee16403842119d2e936b5da1fdeb167e3e46097da9c11a3cceint, s, 0xfd10d8a29c7b718928ed8cea7d0059b71af2d1c2ffc6d75b616d968601e58c6int, 0xfa2a4d4d34f25d3207847ac738dd94b6648a254a16fa6970cf52094e0d4d097int, 0, 0);
    let s = lemma_step_modulus(0x6c111c0a58d76ee16403842119d2e936b5da1fdeb167e3e46097da9c11a3cceint, s, 0xf08c7b67fdbfc0292a6552287b42e3891eb066c758d17260c4f78f1fbbc2859int, 0xe207b47a31022a1bcafd1a2ce9568c9979e62b900b8fe1c41d6ffd240a7163dint, 0, 0);
    let s = lemma_step_modulus(0x6c111c0a58d76ee16403842119d2e936b5da1fdeb167e3e46097da9c11a3cceint, s, 0x378185af7bbb8fa2c73875bbb25106d5d2695d63f8e134515b02f408af1178int, 0xc08e8f967d51999fd22527beb25142edfabe3b104df033b53231647a8a4eint, 0, 0);
    let s = lemma_step_modulus(0x6c111c0a58d76ee16403842119d2e936b5da1fdeb167e3e46097da9c11a3cceint, s, 0xfea8d9645a9870ab33cf0336983e6c76480dad11ec1725a83b0ff1ef92ad40aint, 0xfd537ec13018b094f1ac97a8584215d2242720118a8f27e97aa945c49a22d2eint, 0, 0);
    let s = lemma_step_modulus(0x6c111c0a58d76ee16403842119d2e936b5da1fdeb167e3e46097da9c11a3cceint, s, 0x91834255ae1009c1e4d0c4bbf9b267f0919141ea0f6620f1d906abf1b81d2ceint, 0x52b5f472040e99e4f3acef88acf8d261e3589d8b90d4389ae73e00a308e1cb0int, 0, 0);
    let s = lemma_step_modulus(0x6c111c0a58d76ee16403842119d2e936b5da1fdeb167e3e46097da9c11a3cceint, s, 0xdd6e50eda18f07685d020b9514593f68e69f4aa6df1cdf1e6f6780ccb8cfed4int, 0xbf87a743eebd2b427baf9e5962118d685b9a7feb9c0c244e31b50c365a269ddint, 0, 0);
    let s = lemma_step_modulus(0x6c111c0a58d76ee16403842119d2e936b5da1fdeb167e3e46097da9c11a3cceint, s, 0x3730e941530cbe44b9cbed6d3d566cf8b35c6cb66152baac30ce2153c6b36f7int, 0xbe60d925eb698615b5e499c7d674bad2ab016d610c2aaf0d67279c75575195int, 0x1717b2f44c66da1cf697e6c0d88a9357715c35770f06fdf7272370fac1ef0fdint, 1);
    let s = lemma_step_modulus(0x6c111c0a58d76ee16403842119d2e936b5da1fdeb167e3e46097da9c11a3cceint, s, 0x6f8691962c3c83e1d2d12d4d0db89a3fdedfbb7195cb4e0e544f7b6ea025407int, 0x3095f8fcf65e3fec512f515bf7467171e0541f832828cd76e32624b6ebb4c61int, 0x53409cab4fb00c5bea4a6b5a50dbbd24939ca284327e85f7a44a9910dc31c8bint, 1);
    let s = lemma_step_modulus(0x6c111c0a58d76ee16403842119d2e936b5da1fdeb167e3e46097da9c11a3cceint, s, 0x25bda98063773ff1f3042c3feaa9cd89db7e976b05e333275614ff62fa314c9int, 0x5905f82d48e1a476bd2e0c3fbac5a44402b6da408f9a78ddfea73feb6f740bint, 0, 0);
    let s = lemma_step_modulus(0x6c111c0a58d76ee16403842119d2e936b5da1fdeb167e3e46097da9c11a3cceint, s, 0x1e966471921476ab3df4970f3fabdc5396c3b9237f5c1a52145b1b724b86a2int, 0x3a797e47abce84d7953d29a752b246c8c6440f1fd2cb34abd76faaed26a3int, 0, 0);
    let s = lemma_step_modulus(0x6c111c0a58d76ee16403842119d2e936b5da1fdeb167e3e46097da9c11a3cceint, s, 0x9fbcb6fba3d9bb1ed24476c473983be3d1a37a62abd86154b8cabb32f55e09dint, 0x63abf669d9ebe28f6a599ef8260acdc913316ed43b5e58d6041bfd1295fb641int, 0x63a9bf81e2bad1e37ba5266f3a80eddd0fa5e68617c12636bdf17b6ff2ed93aint, 1);
    let s = lemma_step_modulus(0x6c111c0a58d76ee16403842119d2e936b5da1fdeb167e3e46097da9c11a3cceint, s, 0xb16c487c4d97157f28e438a5eda27d654b00491313bd8043bebb8a3203887d6int, 0x7af6ea0920b28b3437cead2e17f90c1689af7ab4ad73da9702f798d54aa490fint, 0, 0);
    let s = lemma_step_modulus(0x6c111c0a58d76ee16403842119d2e936b5da1fdeb167e3e46097da9c11a3cceint, s, 0x4c84af94b10c5b04c7b0b6685d769b329fb08b2a05d9d2e7bc652962a7b6701int, 0x16df0d05d2e28b34c8aab789d5c5e1c61c817e4464ba42f3e860a09b17e9ed8int, 0x6478f10cefa2901f3cad07d9df4d9cf6a02a69d5060546bf9c9b2f75ce213b9int, 1);
    let s = lemma_step_modulus(0x6c111c0a58d76ee16403842119d2e936b5da1fdeb167e3e46097da9c11a3cceint, s, 0x458580490141fa82aecd1250a3efa19556587a23b45988e259516fb51175f9int, 0x12e13cc5e6d1f5ac70294f3f744c786be2f8e185040c39d27ad2988ac3e87int, 0, 0);
    let s = lemma_step_modulus(0x6c111c0a58d76ee16403842119d2e936b5da1fdeb167e3e46097da9c11a3cceint, s, 0xa2186edbc77f77d68fc4a2229aac7af09d46d38ce693cf81a82c4d1213d6436int, 0x66a2eea321b457b280baaa80da81f6b812105e1b7c271db9b3938e1609085d8int, 0x197bebdb6e1a37b16fdeea4301eac11598690f7d0af47f170647b020a33532int, 1);
    let s = lemma_step_modulus(0x6c111c0a58d76ee16403842119d2e936b5da1fdeb167e3e46097da9c11a3cceint, s, 0x169df36fc1769a694d2912aae32063d57513aa5b2fc3dbc3f34c4f96468bd9eint, 0x1ff874bb3d10813fe9d8f28a440ae6c425c66a41ec05bcdbaea95ca639b97aint, 0, 0);
    assert(s.0 == 0xcb372beb854b7ca43b67ea6e032anat);
}

/// The first 128 bits of the exponent of the same power.
proof fn lemma_power_modulus_2_part_8()
    ensures
        pow_mod(0x6c111c0a58d76ee16403842119d2e936b5da1fdeb167e3e46097da9c11a3cceint, 0xcb372beb854b7ca43b67ea6e032aa05dnat, 0x1000000000000000000000000000000014def9dea2f79cd65812631a5cf5d3edint) == 0x86064f5c1c36027e840bc135edc1c5ae035cef3e45f87fbcebcf4e2c827b503int,
{
    lemma_power_modulus_2_part_7();
    let s = (0xcb372beb854b7ca43b67ea6e032anat, 0x7491d61f79b83fd2d39cdda99aee12a0c98cba5f3c10939c2cfcc483bc06992int);
    let s = lemma_step_modulus(0x6c111c0a58d76ee16403842119d2e936b5da1fdeb167e3e46097da9c11a3cceint, s, 0x7491d61f79b83fd2d39cdda99aee12a0c98cba5f3c10939c2cfcc483bc06992int, 0x35147d20c90f7fee1bcd805f6c226d7c2200b6758cfb0dd388adafc996e47a2int, 0x43db4e48ae8547da7f7ece27ef2dc62a3e35084c1d4334ba3993e501b60ecb2int, 1);
    let s = lemma_step_modulus(0x6c111c0a58d76ee16403842119d2e936b5da1fdeb167e3e46097da9c11a3cceint, s, 0x289f3e00442779bbecaab839cc2585dd686d5d61c9e0ac9daf8050608a53cc2int, 0x672266e28a5201722815b07bfb34ce37283be90570122618a43e05cdd78518int, 0, 0);
    let s = lemma_step_modulus(0x6c111c0a58d76ee16403842119d2e936b5da1fdeb167e3e46097da9c11a3cceint, s, 0x8ce2710d3ed260d1381e387456e2117a8b2071315ec2d887f89b7fc4d4e83ccint, 0x4d8873f24a05b77cf1093fada06564c936babc103abd3ca8f77423c7991107cint, 0x3bb4dfeb824dcb16f24c71595a7637da9f06a87ccacf016ff887f88f41deac2int, 1);
    let s = lemma_step_modulus(0x6c111c0a58d76ee16403842119d2e936b5da1fdeb167e3e46097da9c11a3cceint, s, 0x7ba8fd48d224532eac6441d073739efae8ed7e7c83d629c44847c5722addc1eint, 0x3bbbd2f1641bbbaeb4434373e5fff070db55ed05c244dc3141d0e744744bcefint, 0, 0);
    let s = lemma_step_modulus(0x6c111c0a58d76ee16403842119d2e936b5da1fdeb167e3e46097da9c11a3cceint, s, 0x81d9bb041a78955bab7b5860b4fbf4a0f7fbb64e35bc4ed7f7c9296deb8ad41int, 0x41dd27a8b84165b098f054b3d53a7323cd04d7eb3b762170aca246d2e22a301int, 0, 0);
    let s = lemma_step_modulus(0x6c111c0a58d76ee16403842119d2e936b5da1fdeb167e3e46097da9c11a3cceint, s, 0x2a64cd5345d3fcff32c42e187f82360e71f83890592091b27eabcf3a0512f94int, 0x7053b1060a6958d41bac319c2165225c14bf64d60f1a7d6bc924a4b2bba450int, 0, 0);
    let s = lemma_step_modulus(0x6c111c0a58d76ee16403842119d2e936b5da1fdeb167e3e46097da9c11a3cceint, s, 0x19c3f4cfb653df61ed4cf63079100a0792ac86ee499106e75787fa503ca9f80int, 0x297dbcf7028c17faed9d526d71528656e9fc0036fbbda75b9536148488a06aint, 0, 0);
    let s = lemma_step_modulus(0x6c111c0a58d76ee16403842119d2e936b5da1fdeb167e3e46097da9c11a3cceint, s, 0x61a3fa9340fe2ff9d39129c87e47f73b287adb8301ec9878c29c7b62d3a5fdeint, 0x253daceca40953b094968b05c9db0454c486205139ff24d4516d38f2c450a78int, 0, 0);
    let s = lemma_step_modulus(0x6c111c0a58d76ee16403842119d2e936b5da1fdeb167e3e46097da9c11a3cceint, s, 0xc4ed3aafde9f16bc10010fa0fd06339db96184a35e7e1debc36839c981aeb6cint, 0x977c1db303f9f712461ddc8f3b70e299603a2f79b7d0211d4513b5e94db6076int, 0, 0);
    let s = lemma_step_modulus(0x6c111c0a58d76ee16403842119d2e936b5da1fdeb167e3e46097da9c11a3cceint, s, 0xcccb5232f8d37da232f38e9ee709d361decdcc399b479ed9aa7c82a91e7e652int, 0xa3d4ac7cb3cc6131616467b3f87b42e4471b3dc43e727a27ad81b2427df82ebint, 0x4b42bc344174010623c9bd1defc07118eeee1a8b5d6b22e0065358043db7c2aint, 1);
    let s = lemma_step_modulus(0x6c111c0a58d76ee16403842119d2e936b5da1fdeb167e3e46097da9c11a3cceint, s, 0x869401d513ca65a1442acc35d5850759a703d44deeab3e4846fd6ab33dfe2c4int, 0x46bf477d2f1a1febdaf3ab42b98cf5fd2f69d3d41871f9825f6ff08156ddb4bint, 0, 0);
    let s = lemma_step_modulus(0x6c111c0a58d76ee16403842119d2e936b5da1fdeb167e3e46097da9c11a3cceint, s, 0x27a11cbf594fe83136ce250db5b283408c3f34476557f41dc299249bd1cd0a1int, 0x6227c27791f19d0ebc9a46501659e84f79bf29707e3dbe822e59d339ab9bc8int, 0x3f29bb4c836487b679227c1ee33f8ad9393f10b7740bfc673b5cfc8f939ebaint, 1);
    let s = lemma_step_modulus(0x6c111c0a58d76ee16403842119d2e936b5da1fdeb167e3e46097da9c11a3cceint, s, 0xe71c0b5231a2c0109b1e964e9929d8585b5ddb12df51afb06025b984e21d5ecint, 0xd0a39f80d00ebcdfcdf74ee8ba9d031b64d8096d33d3a2907b79544f6b0f0e7int, 0x48e22ea61abbea32acbfe90fd6b15a25eaa6ca813d768ef601e130d6162e8c9int, 1);
    let s = lemma_step_modulus(0x6c111c0a58d76ee16403842119d2e936b5da1fdeb167e3e46097da9c11a3cceint, s, 0xb50f0e54ea38ba29401e164d4eba9663ffc8eef792028469ab4533ef3936491int, 0x800e4b26c1f50face5627e0aaf352f9edb1f5f63482e8d69e26d2bd6f4fe61eint, 0x614b6123b9ec88266a5dd5cd3882d4ce8620f9758acf2e5626233082a52150aint, 1);
    let s = lemma_step_modulus(0x6c111c0a58d76ee16403842119d2e936b5da1fdeb167e3e46097da9c11a3cceint, s, 0x35bb7e817246e6364edb43e11c2c58811ddbffb32ad3b1d13c80715254518f8int, 0xb472bb3a8f1fcd8f912af76c3498f9db70f426249baaaeee77d9a070e0b807int, 0, 0);
    let s = lemma_step_modulus(0x6c111c0a58d76ee16403842119d2e936b5da1fdeb167e3e46097da9c11a3cceint, s, 0xc5b7aa43d6fc2101078a880e65d3ffc9caa727f680cb3608ab4cf13cdb44cc5int, 0x98b42fd1471b92c3dd6d21815367ebb10edc206eb2154a082a069cd0a5bfc63int, 0x11ebe8a0128cbfcc470ffc5511fd3947b792dcd7165c69190f56387b4906b7dint, 1);
    assert(s.0 == 0xcb372beb854b7ca43b67ea6e032aa05dnat);
}

/// The power 0x32cdcafae152df290ed9fa9b80caa8174cb of 0x6c111c0a58d76ee16403842119d2e936b5da1fdeb167e3e46097da9c11a3cce modulo 0x1000000000000000000000000000000014def9dea2f79cd65812631a5cf5d3ed.
proof fn lemma_power_modulus_2()
    ensures
        pow_mod(0x6c111c0a58d76ee16403842119d2e936b5da1fdeb167e3e46097da9c11a3cceint, 0x32cdcafae152df290ed9fa9b80caa8174cbnat, 0x1000000000000000000000000000000014def9dea2f79cd65812631a5cf5d3edint) == 0xbd13fcffaf77d620bca338bf83dd95c315bf5872deea14d33f0a3a89e841682int,
{
    lemma_power_modulus_2_part_8();
    let s = (0xcb372beb854b7ca43b67ea6e032aa05dnat, 0x86064f5c1c36027e840bc135edc1c5ae035cef3e45f87fbcebcf4e2c827b503int);
    let s = lemma_step_modulus(0x6c111c0a58d76ee16403842119d2e936b5da1fdeb167e3e46097da9c11a3cceint, s, 0x86064f5c1c36027e840bc135edc1c5ae035cef3e45f87fbcebcf4e2c827b503int, 0x462a9b3c3e73d7b22fa23b306768a7574ce3ae8de49b748b018e68be80b2447int, 0, 0);
    let s = lemma_step_modulus(0x6c111c0a58d76ee16403842119d2e936b5da1fdeb167e3e46097da9c11a3cceint, s, 0xa5bdc09eb755e1ee92ab002bf1f8f4992a8fca70917c24b168c6a9919bd234eint, 0x6b4e26f2939ddf74c789a30757a7720cbeaa73db8d53c5ee3def59d6bdc03f9int, 0, 0);
    let s = lemma_step_modulus(0x6c111c0a58d76ee16403842119d2e936b5da1fdeb167e3e46097da9c11a3cceint, s, 0xbb667e6eab10b98e34e965ea982137c4e6d972084614f86278e27f3e6c7833fint, 0x892ee5beac8be0a589f5f028dd0d88190e62250d674ff01b6c85f4b3e73ec2eint, 0x2bca6e3432cf7c7d2fa338a4cbf5565f41ffa5fdcf557cf24f7cda26ae8657fint, 1);
    let s = lemma_step_modulus(0x6c111c0a58d76ee16403842119d2e936b5da1fdeb167e3e46097da9c11a3cceint, s, 0x3a5e99a14b70fc63a155d775effd7b0a40424a6598b642218a3c142a082bd87int, 0xd4f009244d4cb23864d52956568d8de994274c4c46c8dc43598d104993eca3int, 0x52c6c17e4b5ce69863d4f459dc2c408993686dce62cc0f00af3a5de32eb3461int, 1);
    let s = lemma_step_modulus(0x6c111c0a58d76ee16403842119d2e936b5da1fdeb167e3e46097da9c11a3cceint, s, 0x11266c45eb0f9cd622da93077f4d22e7aba33bdd3454e97d458ccc1bb6690bfint, 0x12620259bc4ece4bac84426c02eac228111877a08689079b14f3b72e0a8603int, 0, 0);
    let s = lemma_step_modulus(0x6c111c0a58d76ee16403842119d2e936b5da1fdeb167e3e46097da9c11a3cceint, s, 0x632e652496d4a2a9a2979ae0f83af6bd08f5cb4d8fd0a04e9a6f7b12f9e4baint, 0x266ceaa2cdc48e7835bd29839e89f9f320f7e9041966d87e5aa0312c8d45fint, 0, 0);
    let s = lemma_step_modulus(0x6c111c0a58d76ee16403842119d2e936b5da1fdeb167e3e46097da9c11a3cceint, s, 0xd8cea084a09fc88750acfbbccfc3160491be8cedcf5dcbd6606cc55984dee31int, 0xb79d55a689263108d621cdfb098958a983f009a8ce2db52c91a27b21b426367int, 0x45c026cfff805bee3c7a9e6dc0f55438fc104e9b2f4fef8871e2511a78f4c7cint, 1);
    let s = lemma_step_modulus(0x6c111c0a58d76ee16403842119d2e936b5da1fdeb167e3e46097da9c11a3cceint, s, 0x98cf9bc4481a187b4f1c78bfd6453369d3f53011b8bb158b4ab3513a3601608int, 0x5b3731565bd2dd141b453e7b0a63541d2405ad87720393bb93e2f9f3172cf8bint, 0, 0);
    let s = lemma_step_modulus(0x6c111c0a58d76ee16403842119d2e936b5da1fdeb167e3e46097da9c11a3cceint, s, 0x1af99ef3a2815ddc9ea08dc633364241ccb1f50d8fb587fcbb25e97bb84ab91int, 0x2d7a7b015a60b2f0001b1ee55498d1dd87ab56ef11e1be27d297376d77306aint, 0x2f83bc0e318f3dc633dd47ad78c7b323ad60a0924f004107e41346e4df3c1d5int, 1);
    let s = lemma_step_modulus(0x6c111c0a58d76ee16403842119d2e936b5da1fdeb167e3e46097da9c11a3cceint, s, 0x753e347e71ff1d19689c1587bb8005acf6a5cc7dd112a7341038cb8be1b9201int, 0x35b1eb190c3604ef5fa384b64bcd2328d58ee25b0f7bb5f125d76d6655a5aabint, 0x621d301ddc14802c7936c1a96674e7326b474fef6f3d75c766c8809d6c15c62int, 1);
    assert(s.0 == 0x32cdcafae152df290ed9fa9b80caa8174cbnat);
}

/// The power 132 of 0xbd13fcffaf77d620bca338bf83dd95c315bf5872deea14d33f0a3a89e841682 modulo 0x1000000000000000000000000000000014def9dea2f79cd65812631a5cf5d3ed.
proof fn lemma_power_modulus_3()
    ensures
        pow_mod(0xbd13fcffaf77d620bca338bf83dd95c315bf5872deea14d33f0a3a89e841682int, 132, 0x1000000000000000000000000000000014def9dea2f79cd65812631a5cf5d3edint) == 1,
{
    let s = lemma_square_start(0xbd13fcffaf77d620bca338bf83dd95c315bf5872deea14d33f0a3a89e841682int, 0x1000000000000000000000000000000014def9dea2f79cd65812631a5cf5d3edint);
    let s = lemma_step_modulus(0xbd13fcffaf77d620bca338bf83dd95c315bf5872deea14d33f0a3a89e841682int, s, 1, 0, 0, 1);
    let s = lemma_step_modulus(0xbd13fcffaf77d620bca338bf83dd95c315bf5872deea14d33f0a3a89e841682int, s, 0xbd13fcffaf77d620bca338bf83dd95c315bf5872deea14d33f0a3a89e841682int, 0x8ba6852111135ec915f71977e178220fb433ed3395b61afb86d8176856cd705int, 0, 0);
    let s = lemma_step_modulus(0xbd13fcffaf77d620bca338bf83dd95c315bf5872deea14d33f0a3a89e841682int, s, 0x7646605334d5e82c0907abe194605ff9488314c0aa65e5dabe947ebe1456b63int, 0x36a4f425867499af4c252f079f8a9d452e8385b5c4f92de24f86f40e2489bb7int, 0, 0);
    let s = lemma_step_modulus(0xbd13fcffaf77d620bca338bf83dd95c315bf5872deea14d33f0a3a89e841682int, s, 0x2a585f7f00a4e693cf380fa6f6813d7a1231b15eedc8c79e6e374bcf6b6eadeint, 0x7011dd777260e830c5bc058fdf8c12734c6eeaac0693472142bbefc4b0e623int, 0, 0);
    let s = lemma_step_modulus(0xbd13fcffaf77d620bca338bf83dd95c315bf5872deea14d33f0a3a89e841682int, s, 0xd98c79f198529e3b20482bd84a7e6b6dc58a7401ab5e57410b7df7fba2fb11dint, 0xb8df73d12e90f09b8d29afab9a343bda55dc46ba77d8159c20121ed366fba4bint, 0, 0);
    let s = lemma_step_modulus(0xbd13fcffaf77d620bca338bf83dd95c315bf5872deea14d33f0a3a89e841682int, s, 0xbd4814a7edba4ce0a9d55e406d8dd0c7c1d6e623dc4a9b2517f7e0eed6cd4daint, 0x8bf382cb9525799c1afa76c2d91e13c95c299484ccd5b6806c4ef86e15a889bint, 0x8787e7c94a8cde79a27e8f20f82d3adaedb4e44725f11095dd0dd8a7907d40eint, 1);
    let s = lemma_step_modulus(0xbd13fcffaf77d620bca338bf83dd95c315bf5872deea14d33f0a3a89e841682int, s, 0x94a7310e07981e77d3d6d60abc1c27a0ef0565342ce83febe8775dfebbe07d4int, 0x5651bde9427c2b5f5dcdaa09d4731c4c70372e5c598569a79cddc07de2c15b4int, 0, 0);
    let s = lemma_step_modulus(0xbd13fcffaf77d620bca338bf83dd95c315bf5872deea14d33f0a3a89e841682int, s, 0x1000000000000000000000000000000014def9dea2f79cd65812631a5cf5d3ecint, 0x1000000000000000000000000000000014def9dea2f79cd65812631a5cf5d3ebint, 0, 0);
    assert(s.0 == 132);
}

/// The generator to the power of the modulus minus one is one.
pub proof fn lemma_generator_full()
    ensures
        pow_mod(2, 0x1000000000000000000000000000000014def9dea2f79cd65812631a5cf5d3ecnat, 0x1000000000000000000000000000000014def9dea2f79cd65812631a5cf5d3edint) == 1,
{
    lemma_power_modulus_1();
    lemma_power_modulus_2();
    lemma_pow_mod_mul(2, 0x9c5c7a67bb0f1fef559a72f9c71nat, 0x32cdcafae152df290ed9fa9b80caa8174cbnat, 0x1000000000000000000000000000000014def9dea2f79cd65812631a5cf5d3edint);
    assert(0x9c5c7a67bb0f1fef559a72f9c71nat * 0x32cdcafae152df290ed9fa9b80caa8174cbnat == 0x1f07c1f07c1f07c1f07c1f07c1f07c1f303c132424c8f21bd198060495419bnat);
    lemma_power_modulus_3();
    lemma_pow_mod_mul(2, 0x1f07c1f07c1f07c1f07c1f07c1f07c1f303c132424c8f21bd198060495419bnat, 132, 0x1000000000000000000000000000000014def9dea2f79cd65812631a5cf5d3edint);
    assert(0x1f07c1f07c1f07c1f07c1f07c1f07c1f303c132424c8f21bd198060495419bnat * 132 == 0x1000000000000000000000000000000014def9dea2f79cd65812631a5cf5d3ecnat);
}

/// The power 66 of 0xbd13fcffaf77d620bca338bf83dd95c315bf5872deea14d33f0a3a89e841682 modulo 0x1000000000000000000000000000000014def9dea2f79cd65812631a5cf5d3ed.
proof fn lemma_power_modulus_4()
    ensures
        pow_mod(0xbd13fcffaf77d620bca338bf83dd95c315bf5872deea14d33f0a3a89e841682int, 66, 0x1000000000000000000000000000000014def9dea2f79cd65812631a5cf5d3edint) == 0x1000000000000000000000000000000014def9dea2f79cd65812631a5cf5d3ecint,
{
    let s = lemma_square_start(0xbd13fcffaf77d620bca338bf83dd95c315bf5872deea14d33f0a3a89e841682int, 0x1000000000000000000000000000000014def9dea2f79cd65812631a5cf5d3edint);
    let s = lemma_step_modulus(0xbd13fcffaf77d620bca338bf83dd95c315bf5872deea14d33f0a3a89e841682int, s, 1, 0, 0, 1);
    let s = lemma_step_modulus(0xbd13fcffaf77d620bca338bf83dd95c315bf5872deea14d33f0a3a89e841682int, s, 0xbd13fcffaf77d620bca338bf83dd95c315bf5872deea14d33f0a3a89e841682int, 0x8ba6852111135ec915f71977e178220fb433ed3395b61afb86d8176856cd705int, 0, 0);
    let s = lemma_step_modulus(0xbd13fcffaf77d620bca338bf83dd95c315bf5872deea14d33f0a3a89e841682int, s, 0x7646605334d5e82c0907abe194605ff9488314c0aa65e5dabe947ebe1456b63int, 0x36a4f425867499af4c252f079f8a9d452e8385b5c4f92de24f86f40e2489bb7int, 0, 0);
    let s = lemma_step_modulus(0xbd13fcffaf77d620bca338bf83dd95c315bf5872deea14d33f0a3a89e841682int, s, 0x2a585f7f00a4e693cf380fa6f6813d7a1231b15eedc8c79e6e374bcf6b6eadeint, 0x7011dd777260e830c5bc058fdf8c12734c6eeaac0693472142bbefc4b0e623int, 0, 0);
    let s = lemma_step_modulus(0xbd13fcffaf77d620bca338bf83dd95c315bf5872deea14d33f0a3a89e841682int, s, 0xd98c79f198529e3b20482bd84a7e6b6dc58a7401ab5e57410b7df7fba2fb11dint, 0xb8df73d12e90f09b8d29afab9a343bda55dc46ba77d8159c20121ed366fba4bint, 0, 0);
    let s = lemma_step_modulus(0xbd13fcffaf77d620bca338bf83dd95c315bf5872deea14d33f0a3a89e841682int, s, 0xbd4814a7edba4ce0a9d55e406d8dd0c7c1d6e623dc4a9b2517f7e0eed6cd4daint, 0x8bf382cb9525799c1afa76c2d91e13c95c299484ccd5b6806c4ef86e15a889bint, 0x8787e7c94a8cde79a27e8f20f82d3adaedb4e44725f11095dd0dd8a7907d40eint, 1);
    let s = lemma_step_modulus(0xbd13fcffaf77d620bca338bf83dd95c315bf5872deea14d33f0a3a89e841682int, s, 0x94a7310e07981e77d3d6d60abc1c27a0ef0565342ce83febe8775dfebbe07d4int, 0x5651bde9427c2b5f5dcdaa09d4731c4c70372e5c598569a79cddc07de2c15b4int, 0, 0);
    assert(s.0 == 66);
}

/// The generator to the power of the modulus minus one, over 2.
pub proof fn lemma_generator_without_2()
    ensures
        pow_mod(2, 0x80000000000000000000000000000000a6f7cef517bce6b2c09318d2e7ae9f6nat, 0x1000000000000000000000000000000014def9dea2f79cd65812631a5cf5d3edint) == 0x1000000000000000000000000000000014def9dea2f79cd65812631a5cf5d3ecint,
{
    lemma_power_modulus_1();
    lemma_power_modulus_2();
    lemma_pow_mod_mul(2, 0x9c5c7a67bb0f1fef559a72f9c71nat, 0x32cdcafae152df290ed9fa9b80caa8174cbnat, 0x1000000000000000000000000000000014def9dea2f79cd65812631a5cf5d3edint);
    assert(0x9c5c7a67bb0f1fef559a72f9c71nat * 0x32cdcafae152df290ed9fa9b80caa8174cbnat == 0x1f07c1f07c1f07c1f07c1f07c1f07c1f303c132424c8f21bd198060495419bnat);
    lemma_power_modulus_4();
    lemma_pow_mod_mul(2, 0x1f07c1f07c1f07c1f07c1f07c1f07c1f303c132424c8f21bd198060495419bnat, 66, 0x1000000000000000000000000000000014def9dea2f79cd65812631a5cf5d3edint);
    assert(0x1f07c1f07c1f07c1f07c1f07c1f07c1f303c132424c8f21bd198060495419bnat * 66 == 0x80000000000000000000000000000000a6f7cef517bce6b2c09318d2e7ae9f6nat);
}

/// The power 44 of 0xbd13fcffaf77d620bca338bf83dd95c315bf5872deea14d33f0a3a89e841682 modulo 0x1000000000000000000000000000000014def9dea2f79cd65812631a5cf5d3ed.
proof fn lemma_power_modulus_5()
    ensures
        pow_mod(0xbd13fcffaf77d620bca338bf83dd95c315bf5872deea14d33f0a3a89e841682int, 44, 0x1000000000000000000000000000000014def9dea2f79cd65812631a5cf5d3edint) == 0x378d9ddc674005feb08f579fb8841ae471dd911c6cce91e158687e51e07e223int,
{
    let s = lemma_square_start(0xbd13fcffaf77d620bca338bf83dd95c315bf5872deea14d33f0a3a89e841682int, 0x1000000000000000000000000000000014def9dea2f79cd65812631a5cf5d3edint);
    let s = lemma_step_modulus(0xbd13fcffaf77d620bca338bf83dd95c315bf5872deea14d33f0a3a89e841682int, s, 1, 0, 0, 1);
    let s = lemma_step_modulus(0xbd13fcffaf77d620bca338bf83dd95c315bf5872deea14d33f0a3a89e841682int, s, 0xbd13fcffaf77d620bca338bf83dd95c315bf5872deea14d33f0a3a89e841682int, 0x8ba6852111135ec915f71977e178220fb433ed3395b61afb86d8176856cd705int, 0, 0);
    let s = lemma_step_modulus(0xbd13fcffaf77d620bca338bf83dd95c315bf5872deea14d33f0a3a89e841682int, s, 0x7646605334d5e82c0907abe194605ff9488314c0aa65e5dabe947ebe1456b63int, 0x36a4f425867499af4c252f079f8a9d452e8385b5c4f92de24f86f40e2489bb7int, 0x1f468ce922f52a63b3bdf8674154198d8361d4621f7cdb235c224da2b768e1fint, 1);
    let s = lemma_step_modulus(0xbd13fcffaf77d620bca338bf83dd95c315bf5872deea14d33f0a3a89e841682int, s, 0xfaf0762e19ab6a6f978b70a469c199d5e6a62b8efc104d0083e8ca303fa3909int, 0xf5fa88afd7217540c7848ad47db6c276484b1763cfc9624545175061420c596int, 0x2309a1610fe64eeeaaf16ef563a6ef0d35fc7bc9edda086d70007a96aa62f87int, 1);
    let s = lemma_step_modulus(0xbd13fcffaf77d620bca338bf83dd95c315bf5872deea14d33f0a3a89e841682int, s, 0x603f1ffaebbc3e9dbde6707b619a7fbd9f2eed3c315c6270d0d497569e1bf6bint, 0x242f678cf24bf0a5fbf7f13e3ce4429cc69e3b3ac8d2b245aa7383e78c6de49int, 0, 0);
    let s = lemma_step_modulus(0xbd13fcffaf77d620bca338bf83dd95c315bf5872deea14d33f0a3a89e841682int, s, 0x378d9ddc674005feb08f579fb8841ae471dd911c6cce91e158687e51e07e224int, 0xc0e282bfa7f538031755cb260a21861aadd72685257a071ab3b43b8e377b01int, 0, 0);
    assert(s.0 == 44);
}

/// The generator to the power of the modulus minus one, over 3.
pub proof fn lemma_generator_without_3()
    ensures
        pow_mod(2, 0x55555555555555555555555555555555c4a534a3652899cc8062108c9a746a4nat, 0x1000000000000000000000000000000014def9dea2f79cd65812631a5cf5d3edint) == 0x378d9ddc674005feb08f579fb8841ae471dd911c6cce91e158687e51e07e223int,
{
    lemma_power_modulus_1();
    lemma_power_modulus_2();
    lemma_pow_mod_mul(2, 0x9c5c7a67bb0f1fef559a72f9c71nat, 0x32cdcafae152df290ed9fa9b80caa8174cbnat, 0x1000000000000000000000000000000014def9dea2f79cd65812631a5cf5d3edint);
    assert(0x9c5c7a67bb0f1fef559a72f9c71nat * 0x32cdcafae152df290ed9fa9b80caa8174cbnat == 0x1f07c1f07c1f07c1f07c1f07c1f07c1f303c132424c8f21bd198060495419bnat);
    lemma_power_modulus_5();
    lemma_pow_mod_mul(2, 0x1f07c1f07c1f07c1f07c1f07c1f07c1f303c132424c8f21bd198060495419bnat, 44, 0x1000000000000000000000000000000014def9dea2f79cd65812631a5cf5d3edint);
    assert(0x1f07c1f07c1f07c1f07c1f07c1f07c1f303c132424c8f21bd198060495419bnat * 44 == 0x55555555555555555555555555555555c4a534a3652899cc8062108c9a746a4nat);
}

/// The power 12 of 0xbd13fcffaf77d620bca338bf83dd95c315bf5872deea14d33f0a3a89e841682 modulo 0x1000000000000000000000000000000014def9dea2f79cd65812631a5cf5d3ed.
proof fn lemma_power_modulus_6()
    ensures
        pow_mod(0xbd13fcffaf77d620bca338bf83dd95c315bf5872deea14d33f0a3a89e841682int, 12, 0x1000000000000000000000000000000014def9dea2f79cd65812631a5cf5d3edint) == 0xada62cc1e0db5a9d936121b3ae9787158b7431bdd0820fd2a8498e104540df5int,
{
    let s = lemma_square_start(0xbd13fcffaf77d620bca338bf83dd95c315bf5872deea14d33f0a3a89e841682int, 0x1000000000000000000000000000000014def9dea2f79cd65812631a5cf5d3edint);
    let s = lemma_step_modulus(0xbd13fcffaf77d620bca338bf83dd95c315bf5872deea14d33f0a3a89e841682int, s, 1, 0, 0, 1);
    let s = lemma_step_modulus(0xbd13fcffaf77d620bca338bf83dd95c315bf5872deea14d33f0a3a89e841682int, s, 0xbd13fcffaf77d620bca338bf83dd95c315bf5872deea14d33f0a3a89e841682int, 0x8ba6852111135ec915f71977e178220fb433ed3395b61afb86d8176856cd705int, 0x575b3139fc2c2caa8bd16bb299dde3743c1ff4222264d2e52f0ce357a170d90int, 1);
    let s = lemma_step_modulus(0xbd13fcffaf77d620bca338bf83dd95c315bf5872deea14d33f0a3a89e841682int, s, 0x9871a875076d56946a3d46a9ee3a56e2271229927bbca61d963207c1331cbf6int, 0x5ac72a811efc3495f8f9a68aab251624c524ff54d9ef9cc0d2f42efd5478583int, 0, 0);
    let s = lemma_step_modulus(0xbd13fcffaf77d620bca338bf83dd95c315bf5872deea14d33f0a3a89e841682int, s, 0xaffe6bc936f92283007f85a23f6fa49c66d8f04e823b251b2bad5b7fa0b7d1dint, 0x78fdd43729d385ab388316e5ce59d20498751b00753ca31abdbada813f82224int, 0, 0);
    assert(s.0 == 12);
}

/// The generator to the power of the modulus minus one, over 11.
pub proof fn lemma_generator_without_11()
    ensures
        pow_mod(2, 0x1745d1745d1745d1745d1745d1745d17642d0e5b1b96b594dd3204836ff1344nat, 0x1000000000000000000000000000000014def9dea2f79cd65812631a5cf5d3edint) == 0xada62cc1e0db5a9d936121b3ae9787158b7431bdd0820fd2a8498e104540df5int,
{
    lemma_power_modulus_1();
    lemma_power_modulus_2();
    lemma_pow_mod_mul(2, 0x9c5c7a67bb0f1fef559a72f9c71nat, 0x32cdcafae152df290ed9fa9b80caa8174cbnat, 0x1000000000000000000000000000000014def9dea2f79cd65812631a5cf5d3edint);
    assert(0x9c5c7a67bb0f1fef559a72f9c71nat * 0x32cdcafae152df290ed9fa9b80caa8174cbnat == 0x1f07c1f07c1f07c1f07c1f07c1f07c1f303c132424c8f21bd198060495419bnat);
    lemma_power_modulus_6();
    lemma_pow_mod_mul(2, 0x1f07c1f07c1f07c1f07c1f07c1f07c1f303c132424c8f21bd198060495419bnat, 12, 0x1000000000000000000000000000000014def9dea2f79cd65812631a5cf5d3edint);
    assert(0x1f07c1f07c1f07c1f07c1f07c1f07c1f303c132424c8f21bd198060495419bnat * 12 == 0x1745d1745d1745d1745d1745d1745d17642d0e5b1b96b594dd3204836ff1344nat);
}

/// The power 132 of 0x6c111c0a58d76ee16403842119d2e936b5da1fdeb167e3e46097da9c11a3cce modulo 0x1000000000000000000000000000000014def9dea2f79cd65812631a5cf5d3ed.
proof fn lemma_power_modulus_7()
    ensures
        pow_mod(0x6c111c0a58d76ee16403842119d2e936b5da1fdeb167e3e46097da9c11a3cceint, 132, 0x1000000000000000000000000000000014def9dea2f79cd65812631a5cf5d3edint) == 0x6941747825185c74c21c65c0572a638494435ae0b3ba38e09b97aa8d26faec1int,
{
    let s = lemma_square_start(0x6c111c0a58d76ee16403842119d2e936b5da1fdeb167e3e46097da9c11a3cceint, 0x1000000000000000000000000000000014def9dea2f79cd65812631a5cf5d3edint);
    let s = lemma_step_modulus(0x6c111c0a58d76ee16403842119d2e936b5da1fdeb167e3e46097da9c11a3cceint, s, 1, 0, 0, 1);
    let s = lemma_step_modulus(0x6c111c0a58d76ee16403842119d2e936b5da1fdeb167e3e46097da9c11a3cceint, s, 0x6c111c0a58d76ee16403842119d2e936b5da1fdeb167e3e46097da9c11a3cceint, 0x2d9e70cd7767d605163d08f672bbd427bad86a5fc7e4e0826abb8774e1a43c5int, 0, 0);
    let s = lemma_step_modulus(0x6c111c0a58d76ee16403842119d2e936b5da1fdeb167e3e46097da9c11a3cceint, s, 0xb3b6e94ace089ff74f94f17e0b114dff70f3a58cce89ad2c12caa0868941963int, 0x7e294cef271644dec2edfd112be2ce6d0065f90f33353269f652490417fc44aint, 0, 0);
    let s = lemma_step_modulus(0x6c111c0a58d76ee16403842119d2e936b5da1fdeb167e3e46097da9c11a3cceint, s, 0xd0841461b2f29c22eacb3edc79bab39426e22afeb4845695544d59f6818c5c7int, 0xa9d6e543c92a3128c2e275f0e8c6210ada06b8bee4e3b229805dab75e8abd27int, 0, 0);
    let s = lemma_step_modulus(0x6c111c0a58d76ee16403842119d2e936b5da1fdeb167e3e46097da9c11a3cceint, s, 0x30293129659f233c9a1cbffc459121a0ef787196399b6212bcbb5e373709e96int, 0x90f79104ecf19c8a401965713548638ebe7272fa4ee578e773bf38350dafa5int, 0, 0);
    let s = lemma_step_modulus(0x6c111c0a58d76ee16403842119d2e936b5da1fdeb167e3e46097da9c11a3cceint, s, 0x825afc53ca5e1dae5bc93af22455335da2b216a6aed56317362084c1f23e523int, 0x4260889b7d26f228174016900806f4f815d607978e2b454038492e583efb986int, 0xe4689b97ef2521a9d28d44fca09f396f96fc8cbeeb348301ddd3df95ec3104int, 1);
    let s = lemma_step_modulus(0x6c111c0a58d76ee16403842119d2e936b5da1fdeb167e3e46097da9c11a3cceint, s, 0xcf2326741c68cdd072b5c6e3b5db2bc6f01f526073951c123e8558ebee0fc6int, 0xa799dd034f77ee983fbcd43c06107bb7d9d503fb5c50e11bfe685f2e92b79int, 0, 0);
    let s = lemma_step_modulus(0x6c111c0a58d76ee16403842119d2e936b5da1fdeb167e3e46097da9c11a3cceint, s, 0x8469e8c4743fbf8527aec691d21f17f68f2b7a664c9b5b10c3f372eb1a1d31fint, 0x447d63db5cadc3422daf3b674e9eaccc9ddae2a0bddf9b8c46709293d644b00int, 0, 0);
    assert(s.0 == 132);
}

/// The generator to the power of the modulus minus one, over the prime of 138 bits.
pub proof fn lemma_generator_without_of_138_bits()
    ensures
        pow_mod(2, 0x509faf1d7c73cc776823a348caa44nat, 0x1000000000000000000000000000000014def9dea2f79cd65812631a5cf5d3edint) == 0x6941747825185c74c21c65c0572a638494435ae0b3ba38e09b97aa8d26faec1int,
{
    lemma_power_modulus_1();
    lemma_power_modulus_7();
    lemma_pow_mod_mul(2, 0x9c5c7a67bb0f1fef559a72f9c71nat, 132, 0x1000000000000000000000000000000014def9dea2f79cd65812631a5cf5d3edint);
    assert(0x9c5c7a67bb0f1fef559a72f9c71nat * 132 == 0x509faf1d7c73cc776823a348caa44nat);
}

/// The first 16 bits of the exponent of the same power.
proof fn lemma_power_modulus_8_part_1()
    ensures
        pow_mod(2, 52023, 0x1000000000000000000000000000000014def9dea2f79cd65812631a5cf5d3edint) == 0x6516468ddde41a061d853a9abffd615933819d5824a14651120c0f68b8d263dint,
{
    let s = lemma_square_start(2, 0x1000000000000000000000000000000014def9dea2f79cd65812631a5cf5d3edint);
    let s = lemma_step_modulus(2, s, 1, 0, 0, 1);
    let s = lemma_step_modulus(2, s, 2, 0, 0, 1);
    let s = lemma_step_modulus(2, s, 8, 0, 0, 0);
    let s = lemma_step_modulus(2, s, 64, 0, 0, 0);
    let s = lemma_step_modulus(2, s, 4096, 0, 0, 1);
    let s = lemma_step_modulus(2, s, 0x2000000, 0, 0, 0);
    let s = lemma_step_modulus(2, s, 0x4000000000000int, 0, 0, 1);
    let s = lemma_step_modulus(2, s, 0x20000000000000000000000000int, 0, 0, 1);
    let s = lemma_step_modulus(2, s, 0x800000000000000000000000000000000000000000000000000int, 0x3fffffffffffffffffffffffffffffffac84188int, 0, 0);
    let s = lemma_step_modulus(2, s, 0x574218ca69fb673968c28b04c6ce6504dfc36930c3de1b9bca6cb4e2f703d18int, 0x1dbdfdea5ece19b4cec81a9b66cd569894481a6215ecd50cd3e547d2d93a8d9int, 0, 0);
    let s = lemma_step_modulus(2, s, 0xcec78065dc6c04ec5b6514d3b69ee15c3e65db68e541df200218dc7da09465bint, 0xa705ae1ccd808ccfba7ed89ab23ed98832d97a010d4efc9de3522ac410bb18eint, 1, 1);
    let s = lemma_step_modulus(2, s, 0x830b53334cd037a5faf2e85c2579badf37be56cdd5bf753ba6d812a065f1fd9int, 0x431497a6c21000ef5d3041eecc8ae4dc275bd7602e89f1cf6812d71750ba76fint, 0, 1);
    let s = lemma_step_modulus(2, s, 0x49f5648966457ba3cf4672f09194725d24c917690172ad647a80bdf75fd8e5cint, 0x155dde8ff2cd0326fb92ab0a81e0f824ab4c7b0709e8d46ccb83a9b75b0ece0int, 0, 0);
    let s = lemma_step_modulus(2, s, 0xeda8e65d004393c5e5130531104d8a3eccdb11365c2b6b215d9616ace9a45b0int, 0xdca229f75bd8b690fc82e7d0f49dacb0b2923a908c585051e9e5e481ab4209eint, 1, 1);
    let s = lemma_step_modulus(2, s, 0xa5fa2adf5d78e43db6aa6d8c7fefaaa907b1acc91ab4acf01663ccd9ac60587int, 0x6b9c6fbbb1ee73e4fba36874d842d6771c96f2bdb2f0fa7871836fdd0271bacint, 0, 1);
    let s = lemma_step_modulus(2, s, 0x3689e89827358286795a31b007b9e71276208177a97204aa5548f4f7aa655eaint, 0xb9e786af6b8abd6014004174e0955de3fab04f172d3be3b8d858c3c1e9342bint, 1, 1);
    assert(s.0 == 52023);
}

/// The first 32 bits of the exponent of the same power.
proof fn lemma_power_modulus_8_part_2()
    ensures
        pow_mod(2, 0xcb372bebnat, 0x1000000000000000000000000000000014def9dea2f79cd65812631a5cf5d3edint) == 0x5c6a81abd36a95641e55b07da4781e53ce0b16c38e348eadd5ef255abea693fint,
{
    lemma_power_modulus_8_part_1();
    let s = (52023nat, 0x6516468ddde41a061d853a9abffd615933819d5824a14651120c0f68b8d263dint);
    let s = lemma_step_modulus(2, s, 0x6516468ddde41a061d853a9abffd615933819d5824a14651120c0f68b8d263dint, 0x27ea959c24ea03b4382bd6327b67f87700f0bbe5efaf3d5c524cdf8df97303aint, 0, 0);
    let s = lemma_step_modulus(2, s, 0x1c32d5948218ea4e4d811676766b0ef4bb870764504bd30f87f1dfac7aeb6d7int, 0x31b28d09ca8bba0cc5d0b3d68a9a7c644ea31918aba1d10bfc38610eb276a7int, 0, 0);
    let s = lemma_step_modulus(2, s, 0x71505f3438f59f11d7e748c11e485ff02aaab2c8ae09f9a18d8e30e0c03eaf6int, 0x32280d47be543cdea8455d86fcd750d12d05051325b35ee3e25d0b14bdf3f0eint, 1, 1);
    let s = lemma_step_modulus(2, s, 0xd1f3e111b0e7d58d2d3fd750dbcb34b14e15c2e781de5cc91884a1137c7a0efint, 0xac301dd3f0507d006c5242a43a7d7753ebddfe0a596bde3c857bae58ff08044int, 0, 0);
    let s = lemma_step_modulus(2, s, 0xf9922c88fbe0c055bfea77c828d574d9fa6ade8ba756dc56f25303b9e4ad42dint, 0xf34dae194df9e26409e15801cef04149aaf65bc5c15a00d7902d75e3fcca14eint, 0, 1);
    let s = lemma_step_modulus(2, s, 0x232e0a7cdc38ffbf28308f8d112f0d4d6312b49f029907460dd5e789a7e166int, 0x4d59f25e984b884b6546d4853da8d533d3816a2efc9d8936ddf7953a091eint, 0, 0);
    let s = lemma_step_modulus(2, s, 0x9ff6c2c8cf0037005f7c6bd937c920b4e36beff4dcdc5028a94de59879449deint, 0x63f473d05f450ffc9667eb5784dd288fedc40eb091eb37ff52fa2cb370bbf80int, 1, 1);
    let s = lemma_step_modulus(2, s, 0x7e4c422ae1d5418774a1c9e6bbf386d95ef691c51d510c347c3c017129d521bint, 0x3e4f27d990de26c116386a3aea6714fce7581d5032cfb35528c4dd34ab085e8int, 0, 1);
    let s = lemma_step_modulus(2, s, 0xbe05ce0cc4850fe6d7145019733ecef16ba7c0c465cdf3cb98a290e1423e22int, 0x8d0c9dfca60dbdb66f3392fcc30fa69b5dadacd2bab87389f5c676f0468acint, 0, 1);
    let s = lemma_step_modulus(2, s, 0x921f895337d556329e805f25705de6822543129308dd57fca495416ed4ba290int, 0x5367fc85778108cc33d23ee839ad0d362d9e53f0b54b90f1f5bb6256c65d030int, 0, 1);
    let s = lemma_step_modulus(2, s, 0x61abf66fcf8050cf7e0bc6a96dc0ca6b1b8598d13721160a9781ff109a28920int, 0x2543c443e1d98649677ced7632600cd031bba757371eebe2356066efc0f19f7int, 1, 1);
    let s = lemma_step_modulus(2, s, 0xbbb42fb1956ac9bf06bc1bfdc1cd225bde832fe82e800929dc0a654fb6776bdint, 0x89a0bc808ae6d0f5f36ce37087662e342795ca717eb32dcf7f78e48fdb9406aint, 0, 0);
    let s = lemma_step_modulus(2, s, 0xc5326d2c365c4d95eb1e508effe680f82274e9cc454a35aac9b43c80f1ec767int, 0x97e6a5f4df7df9645fc3e7974b2f7e9bc14d7834b015ee65f7042583ab14eacint, 1, 1);
    let s = lemma_step_modulus(2, s, 0x905876473c5886911adab0f1702206a23da55f3d8c944a056c4bdef4cc1907dint, 0x5163a3a1ab82d3b3e55a845893a54bcd6e0e45bde0a505e3936f224f81952f1int, 0, 0);
    let s = lemma_step_modulus(2, s, 0xc5546cb97055432a65c48e1dd17cb7862834630c80d044d809b0d4fda9370ecint, 0x981b0b2ceec1ee6ed1a4dc06daccc5510b0d11ecac8cc3feda3110a4ef81953int, 1, 1);
    let s = lemma_step_modulus(2, s, 0x5bd396d400b2d9219006e2f6e4658386779220a63d76f8af782777bf2bd2985int, 0x20f01c1cb2d56d928863c206f1941b8f3ae1af6b63a911312480b8f5bf0382fint, 1, 1);
    assert(s.0 == 0xcb372bebnat);
}

/// The first 48 bits of the exponent of the same power.
proof fn lemma_power_modulus_8_part_3()
    ensures
        pow_mod(2, 0xcb372beb854bnat, 0x1000000000000000000000000000000014def9dea2f79cd65812631a5cf5d3edint) == 0xfe88d77feac3f04b381857f7fbcfdab695d8b11eaa6fc3294f2ce54dff8b69bint,
{
    lemma_power_modulus_8_part_2();
    let s = (0xcb372bebnat, 0x5c6a81abd36a95641e55b07da4781e53ce0b16c38e348eadd5ef255abea693fint);
    let s = lemma_step_modulus(2, s, 0x5c6a81abd36a95641e55b07da4781e53ce0b16c38e348eadd5ef255abea693fint, 0x215cb98323ee4e0936420ec670b3033cb02946d261e123ce0a73df0e9c8cbc6int, 1, 1);
    let s = lemma_step_modulus(2, s, 0x30e351354cd6655288e33f9612e9f5b8a44958a17e007d4717d7498e53df679int, 0x956084d1b196fef37a8295e16f097798e55b9404874b0c50f65e9c8c23900cint, 0, 0);
    let s = lemma_step_modulus(2, s, 0x73c284a5a288962e7d001c0e977ecbf5dfc109ae0c8b883a2fb782fa4d48615int, 0x345856fa1fcc48b928e63d27a10035036060dc191d3e681426366eab330605dint, 0, 0);
    let s = lemma_step_modulus(2, s, 0x335e16684f6b7b16d6492830551f9c1ad6f52ebbdea726dcd778e96d8cb20a0int, 0xa4e9f8206353e209745f637ac494d3921ed7d2816979bf883274ff4c2f789aint, 0, 0);
    let s = lemma_step_modulus(2, s, 0x61ceba0b86a0eb0ba0030aba027628a10a8685e07e3d8e8ca6fa12c562ccf6eint, 0x255e4fecadc75d3fc425c5c136ec43d802a8bb33bdd99fa1ec5a5bab98d5f9dint, 0, 0);
    let s = lemma_step_modulus(2, s, 0x2d37b8363f8a9f878569a12399b54bfa03762533dc05e404260a89da2f227ebint, 0x7fca2e3be34107c54b61892f6b8633e670f6afacecda7e21de12a02aa37096int, 0, 1);
    let s = lemma_step_modulus(2, s, 0x7307807f4b5c45411bce97f7b0c911ee3f3e0c444a3cac4d649109427b929b6int, 0x33afbdaaa52a8fec698826130725fcba1952104189c1fffa725decfb9725eeaint, 0, 0);
    let s = lemma_step_modulus(2, s, 0xacb8adc0e65524130817b2618556e7d4ce436ecf7df00e12658b895e2c910c2int, 0x7488aeb570bbcb86cff06862ce4324e6a50db6ad4be3c8614d30bb91e625039int, 0, 1);
    let s = lemma_step_modulus(2, s, 0xc35d4eb7d01a8340d130a8f0ced3c559bf0e8d6952c159f388df268dc19267eint, 0x951747ee50ca1e0372d65ce694f621bec9fe8a5b7502dc5cee288f83290ad0bint, 0, 0);
    let s = lemma_step_modulus(2, s, 0xcdcd2e03566a4ce6d9b8abfbdb73e45b127c583a1ca00da168824c97c4e61d5int, 0xa57240241203d88239b6d0ab2785e006c38f211c5d457d9cd933de733acbb0eint, 0, 1);
    let s = lemma_step_modulus(2, s, 0xec58dbaee8d5c299051cd1a4ab23e51cd199a499880b11a08777f53b366ca86int, 0xda33f3e2420eeb9efbeb204cbe6f94e7b4ec7833fc932eb8e1503c42b6ed38cint, 0, 0);
    let s = lemma_step_modulus(2, s, 0x9ead6d69a15a91625ae2090ff4210ae9a7c6a4b039c6ee63d13fdaa140d8188int, 0x625a888b72b2fedac8e9e7ab3c148a2d44dfff2daab168a2c46c7e9cf3e47a6int, 0, 0);
    let s = lemma_step_modulus(2, s, 0xba205ec0be70d5f6bca78870f7a225744982d9a084e56147679fb183dc63192int, 0x87530dc7e7fdb0191be0702272576b212692771fbd1cf5ae11720c2e53b8699int, 1, 1);
    let s = lemma_step_modulus(2, s, 0xd605f0adfe93c9bc267598db56ec9e42770aa114bf21d08bc29bd4810fb2d51int, 0xb2edee862eb1baa39ccf2631d0cf5e5181ad64d30af6376ad7cfac782eba95eint, 0, 0);
    let s = lemma_step_modulus(2, s, 0x9bd997481c79a4a2de3d5d6ceff69bcd40e9a678c327b94f0d74e1cb5214d9bint, 0x5ee136232421b97ddd0aa6c4607317e8e51816cce28ff802f9cb37651cac04fint, 0, 1);
    let s = lemma_step_modulus(2, s, 0xbde799120f6a95782eaf9b0466ba028275c67f5f2a2efacfde74db40558eb6cint, 0x8cdfc98a44e1cac0c667e266ede177285603e0a52b2ba65a82599843bad7ffcint, 1, 1);
    assert(s.0 == 0xcb372beb854bnat);
}

/// The first 64 bits of the exponent of the same power.
proof fn lemma_power_modulus_8_part_4()
    ensures
        pow_mod(2, 0xcb372beb854b7ca4nat, 0x1000000000000000000000000000000014def9dea2f79cd65812631a5cf5d3edint) == 0x3d9ded4b9ae34c694a0abbfa12157e6ea0e7b7690825f62c518a661a114e648int,
{
    lemma_power_modulus_8_part_3();
    let s = (0xcb372beb854bnat, 0xfe88d77feac3f04b381857f7fbcfdab695d8b11eaa6fc3294f2ce54dff8b69bint);
    let s = lemma_step_modulus(2, s, 0xfe88d77feac3f04b381857f7fbcfdab695d8b11eaa6fc3294f2ce54dff8b69bint, 0xfd13d4c7832e5d44768d748991c6e90b4e73ffe535b4fdb44e52e03ff06da92int, 0, 0);
    let s = lemma_step_modulus(2, s, 0x494fb272895efd9aa08bba99223fd0284be388daba41329380973a6f35812afint, 0x14fe8c94f16c6f896ffa7a5084991f2b41ccdb8bd2735f529927c7324dea5a0int, 1, 1);
    let s = lemma_step_modulus(2, s, 0xb5c7885b07c219b1886b2114da54b7319eb7c5dc1430a244014f0aa7cdfe915int, 0x8113c255ff1f60b5bc70a9106393ad7daceb6c6d12bfc5a684fa969e9246edbint, 1, 1);
    let s = lemma_step_modulus(2, s, 0xe000989b05369cb692b150591349335d47bf694df94547ccc243da4cd446007int, 0xc4010b0fa418064fab0c0da9b2910194e7f3a6adc7262c85e92958d82ecf92bint, 0, 1);
    let s = lemma_step_modulus(2, s, 0x222b8c1e52e8ce83510a2383fe7b72e699eba86550ed675980ceccdd9aa44c4int, 0x48f98a06ce6df566cedea4427adf42dc876ecc454ec2428ad69966804bdfc7int, 1, 1);
    let s = lemma_step_modulus(2, s, 0x763574bc2a5773a0c7f5af1556c08dfa84ef30c4d1c600d6eb05c99065737bdint, 0x369552c7022d377b9125a24f0f724ba4ac1fd6bae5fd6c968633586c5d71280int, 1, 1);
    let s = lemma_step_modulus(2, s, 0x7e5f8c87187a9eb8ff9572f283790c691dabd9bbe0eb48b0a89aac0f6846e25int, 0x3e6231fe9580e950da29c5396969b8cd54c6cad9c4040c44fe79315e25f4015int, 0, 0);
    let s = lemma_step_modulus(2, s, 0x1538fb4d4dc510f1bd4d5be6f17f7c741e859811b48cd4058126d87ed732ee8int, 0x1c265e9974508d76237e1722c75b6f6c415ea1f61bc06dea10835b573118faint, 0, 0);
    let s = lemma_step_modulus(2, s, 0xc1b1c9cb0762070a7bbc9de39dded4670784e6c477e0d1e19c44e94cdbc04ceint, 0x928d8dbccaf276c82fcda3bdecd8bf8625a6c256f78e8fffddfda999b6e8811int, 0, 1);
    let s = lemma_step_modulus(2, s, 0xaca457e71aa77424a000c86211c5e74db49011a342424f99b8fcc7f4dd0360eint, 0x746d3f9f4a1a0f5cf3d8fe3dfc1f1d683a11b308c4077f01c13f47c3d3ba048int, 0, 0);
    let s = lemma_step_modulus(2, s, 0xb856ef58fd77b3457c06a3a5ab5b3bdc1ad40b3d437c5751c08f74933f32e1cint, 0x84bd15959beda65512f5ad5d430acb211306bb5511ac13f3e4f46dcd6bed865int, 0, 1);
    let s = lemma_step_modulus(2, s, 0xee1f3e56f2fba0dc94cb65f77d959d3a57ee7e648f042365ceeb8747386fd1eint, 0xdd7e1bb9d408f34523b1da973c6fc96077a9d7a323bf64d03f92cf0ec8df84dint, 0, 0);
    let s = lemma_step_modulus(2, s, 0x3440d4bed36eb2d4f04807ff9f80e46941d4715614e2fc6a5f17bd698e4f93bint, 0xaaa66d8961b4c6dcb3733f900c967346ba65dd437817081fc68f301208fe3fint, 0, 0);
    let s = lemma_step_modulus(2, s, 0x65e0f94395096ac6b86ecfe2bd4773ce884a24674fef0b816b839a8e18f8646int, 0x288b4a647c92c87f54b29f64d1c0a415a17b9100e388b699ef3d9f5d5563d5dint, 1, 1);
    let s = lemma_step_modulus(2, s, 0xe3613d8dcac131557e69c4207478a67ce00ad830558a32e76441ab8d575f629int, 0xc9f5981929d3250e0be1e80a2f0919df033d63c9776c0f86ed18c4ce346b8e9int, 0, 0);
    let s = lemma_step_modulus(2, s, 0x4a549ef51748341d388a7240a01d6f1d4f99fc79047d5565f9e9cc24e97dcint, 0x159507de650078e5ca83045c10351d9a89fd6bc2f7a78fe5191e4ff90e8int, 0, 0);
    assert(s.0 == 0xcb372beb854b7ca4nat);
}

/// The first 80 bits of the exponent of the same power.
proof fn lemma_power_modulus_8_part_5()
    ensures
        pow_mod(2, 0xcb372beb854b7ca43b67nat, 0x1000000000000000000000000000000014def9dea2f79cd65812631a5cf5d3edint) == 0x7f77751454dbfdc4344b7fc9acf868a5fe2900661a80b9e09130d7483d68d15int,
{
    lemma_power_modulus_8_part_4();
    let s = (0xcb372beb854b7ca4nat, 0x3d9ded4b9ae34c694a0abbfa12157e6ea0e7b7690825f62c518a661a114e648int);
    let s = lemma_step_modulus(2, s, 0x3d9ded4b9ae34c694a0abbfa12157e6ea0e7b7690825f62c518a661a114e648int, 0xed4a482f2816052e0cde948464c7f168acb09ef26df39c2324b3b60e3019d8int, 0, 0);
    let s = lemma_step_modulus(2, s, 0x1558e2f2c96ddf95abb1c55d005a4aef0cb52f5817d69913fd7bb6c36d87f48int, 0x1c7b418a528141fb60de6f89ee7dcc1f2ce99764cdd7e55ef60410eaea5dccint, 0, 0);
    let s = lemma_step_modulus(2, s, 0xb3cc0c800de9014c5f04afe73c92191633cade87e653a62f92a7587ae448a64int, 0x7e46fc1f00264486a079f0f24b178cc2ee0ab45b61061219abcd5515d3a7d47int, 1, 1);
    let s = lemma_step_modulus(2, s, 0x1adbd8471201ff48fafc9c12c8911610e0c6a00afd7da5a2f9ae40948351abdint, 0x2d164ba2ff93963f703c5d698ceda5480042a3a6ccb64b93896b8c6534956aint, 1, 1);
    let s = lemma_step_modulus(2, s, 0xc600ac97f0c83e052c9579c0d147b90aa1e3d82521c80acb5d21b3c2e96a8e1int, 0x99250afb7cd245ab02ff674462601c75e02bda259a38fb696d319578d4bbacbint, 0, 1);
    let s = lemma_step_modulus(2, s, 0x1d7dcfe3c8df76300324da8eb17041406e6f15cd08e5219fb8d262e8177ada4int, 0x365beee48c6f48786a49577137a6e05654c51df7195d9a5f392bbdfc3582daint, 0, 0);
    let s = lemma_step_modulus(2, s, 0x8d31ca816b1ae2340affee851cb6d71a3f5a3a9d52d469b51e2a3bf01393f3eint, 0x4ddfe2c1b5b71beb76ebb8712692f5c86a9a53bf558d45d3e01062af05e2c6bint, 0, 1);
    let s = lemma_step_modulus(2, s, 0x6be29e2310ba91658b5774d5a5234c069146b416d0353f09d51e3f9321285eaint, 0x2d7738cce794cc67795a15fd3af257f303868a75f9b8ed152198b381748de00int, 1, 1);
    let s = lemma_step_modulus(2, s, 0xde7cbe9e84387ced1f08a3b4ee4b565b1b582d36d1f6d388b52cd54821513dbint, 0xc15c976424d1bdcf9afd885af2f1361bb5e2410ca468c52104fe92cf4a109a9int, 0, 0);
    let s = lemma_step_modulus(2, s, 0x44be28faf970a0087688088a353a6e7969ca6349ec94c54bff2ef9e80af00e4int, 0x127593062f9d7c31608fb4e4ffd0d8149b874553ecefac1616d785682e2dd9eint, 0, 1);
    let s = lemma_step_modulus(2, s, 0x3a13b493c35313b0641bf8e519e3f697853671efe446a8e526e5a5e5da4cb94int, 0xd2cef5741d0c33793abdd3d8e4656cddecb1c7e34356abf54c661be3a8e6c3int, 0, 1);
    let s = lemma_step_modulus(2, s, 0x834ae158a2e226c5149337710dc00d9ad5eaa0692319b2c12358bb032a96412int, 0x4355b887c44e8b6e0842a65c95fb18c662435c675599a8c99354dd8455ac5f6int, 0, 0);
    let s = lemma_step_modulus(2, s, 0x5e884cae1a76e29a04b9bc4ea57294aeaa4f69368380d65fd94318a6c410a86int, 0x22e860e16b6342d87201450b80e0fe8e334bb0e870d1013063c167671251c1aint, 0, 0);
    let s = lemma_step_modulus(2, s, 0xfc29be41ee60aebe8cafea352bcf4cc7df5c9667b97aae8b33ea3b5d6144c12int, 0xf86235604bd2a1d18c76e478180c34159328623ff4bfaeb5e4a833a87c2289cint, 0, 1);
    let s = lemma_step_modulus(2, s, 0x701e7f489f7a41ca54fe31397d7eb45a178d477bc7ab61f33f317d0dbcd09b0int, 0x311ab3019fd97d0ddb2f30e5f67024daceedf69799f24dd29210a5b2096b950int, 0, 1);
    let s = lemma_step_modulus(2, s, 0x622dd66ab2514abeaf96c5abeda7d3ddc0081d7cc7e1f385a42033448ceb3e0int, 0x25a7205ec59f7c6655f703942a68c2c3eade593d98c98b9915dd792a1112f9bint, 1, 1);
    assert(s.0 == 0xcb372beb854b7ca43b67nat);
}

/// The first 96 bits of the exponent of the same power.
proof fn lemma_power_modulus_8_part_6()
    ensures
        pow_mod(2, 0xcb372beb854b7ca43b67ea6enat, 0x1000000000000000000000000000000014def9dea2f79cd65812631a5cf5d3edint) == 0x5e4beb1f44f3f7c21807a3c1c8270afb04b191477667273d5fb1be9a5232527int,
{
    lemma_power_modulus_8_part_5();
    let s = (0xcb372beb854b7ca43b67nat, 0x7f77751454dbfdc4344b7fc9acf868a5fe2900661a80b9e09130d7483d68d15int);
    let s = lemma_step_modulus(2, s, 0x7f77751454dbfdc4344b7fc9acf868a5fe2900661a80b9e09130d7483d68d15int, 0x3f77bde83aa4c17d0cc1a1050148012a159ce75ee37495ac3c565a5814609dbint, 0, 1);
    let s = lemma_step_modulus(2, s, 0x35e6c783f4b5a8263f0ffebd5b4165e331e153cdb4ae4302228594c409d05f4int, 0xb595ea7bfed5880c21646d7a9300a111dc549287d4ff5150216a5f2eb7fa5cint, 0, 1);
    let s = lemma_step_modulus(2, s, 0xf207f5456593af63d43d03b293e4e0b5b9787f41616973edaeea24d7f65aac8int, 0xe4d30bf688d4ace8ec5873f8afa022c8eb94c88bded6dd92dd14f988f4ad628int, 0, 1);
    let s = lemma_step_modulus(2, s, 0x2ccb9df5c4c8604bc892895db546746db88f9a1c171a300faee6c4bf1560270int, 0x7d6a04060e25632ca0b2cfa5ba847a2e0eb2a30b0d32bfb0499942536939caint, 0, 0);
    let s = lemma_step_modulus(2, s, 0x7d80125df1437daa1519ff3b7192b822582ad6a7b59b8731c11ccf8a9e7f2feint, 0x3d8652021cde849c6ec5da2f85942f7773274ea64fbc1361d8bf496d341e426int, 1, 1);
    let s = lemma_step_modulus(2, s, 0xd4da986c43aa2bd99bb31ff88e999c08775277f39332fdfde3a03c96e4981bfint, 0xb0fac71b4335d4965607c69860a0cb03a9f38cb2026d75355025584bd5f97b2int, 0, 0);
    let s = lemma_step_modulus(2, s, 0xda4a1267601df4bf924e42189593e34b58cf7c36ad9489cece70f7c23cee6b7int, 0xba223cc6b4c9496a768a3b9bdc5a92fa2d1f1be49833262496c55d113b6a0cdint, 1, 1);
    let s = lemma_step_modulus(2, s, 0xea2c7b99db12bc7dbbe690354777b178226eb8d2c4686d13eb435ad46533023int, 0xd63559affd0ec4023fb9479b4d16c4d317147ed270391821f4e8399795c67dcint, 0, 0);
    let s = lemma_step_modulus(2, s, 0x2bc67b346566ead9c00acf71dc9465a0fd10c97e92899856e3cd7726a0caa1dint, 0x77c47466a68d242aeffb8195a771c8182a2583adad0a5c2eec4a490d60de53int, 0, 0);
    let s = lemma_step_modulus(2, s, 0x6e1326c05bb4e51f650b95dbc3cb9cdfab852b220d38a7708306ea394674b72int, 0x2f5476bc153abd8461b6104f6fcd9644bbe425e7d2846621cc4c3bea8399038int, 1, 1);
    let s = lemma_step_modulus(2, s, 0x991ed048e06de62ad6c5b2a27c99fb24ed93e4fd864e0bde4a33883178d1ebint, 0x5b95d8ac96ce7852bf5a3ceeefc7a635ba596024582da8b0b6f05d828eb0fint, 1, 1);
    let s = lemma_step_modulus(2, s, 0xfcd77b21b2e379bc8f391bc6a39ae8067ac816ed1627f6515d433921df953bfint, 0xf9b8efca6603b817e752b444dc9f059865cfe2d2b7bbcb538065f72ba410871int, 0, 0);
    let s = lemma_step_modulus(2, s, 0xf54c5977daca46e9c0ebe8f05701c9f6af7e475318847c7627df52f92a474e4int, 0xeb0b3a04a735a2134e67adfdd1a1a987b78a1c987496104c4245f642646ffe0int, 1, 1);
    let s = lemma_step_modulus(2, s, 0x81be5ac888c125a6d1d11a051d4327ed648c4c1af6c50a89fdd06730a07fd73int, 0x41c16508fbaf43e3c8661885ae198cc70269a017c4edb1c23c946da2f59a3deint, 1, 1);
    let s = lemma_step_modulus(2, s, 0x4d4fd4d777907f23c14fe0b8d180a998596793fa1b3e9fc38a62926a271d259int, 0x17591eeeabde4b0b597bca79658c806f83d591a8aadb3761fd519ddffdb8982int, 1, 1);
    let s = lemma_step_modulus(2, s, 0x2ed35fc1b57b5bef95bdb468e5a8068c095ac5e92d133384022f2365dd8b41int, 0x890a4f09a5ad5a859a51f61ee5f30078ed9c66a9582f73d3c9f2a62e0f82int, 0, 0);
    assert(s.0 == 0xcb372beb854b7ca43b67ea6enat);
}

/// The first 112 bits of the exponent of the same power.
proof fn lemma_power_modulus_8_part_7()
    ensures
        pow_mod(2, 0xcb372beb854b7ca43b67ea6e032anat, 0x1000000000000000000000000000000014def9dea2f79cd65812631a5cf5d3edint) == 0xcd2d2ffbb4d5e1414988bd085c0fb019659771ab4a12563b425ca49389f39c7int,
{
    lemma_power_modulus_8_part_6();
    let s = (0xcb372beb854b7ca43b67ea6enat, 0x5e4beb1f44f3f7c21807a3c1c8270afb04b191477667273d5fb1be9a5232527int);
    let s = lemma_step_modulus(2, s, 0x5e4beb1f44f3f7c21807a3c1c8270afb04b191477667273d5fb1be9a5232527int, 0x22bbd72e92e7fd4f63e68dfb820d2c5dc0e21943e4263695add8caade8f570dint, 0, 0);
    let s = lemma_step_modulus(2, s, 0x15c8c9963383578e2dd2264ccb2f5b762ee4aae93091c8dcd1ebd4c4929fde8int, 0x1da8e8e3de13e9ac971897b83734a8041f99406a356bef163c385c65caed04int, 0, 0);
    let s = lemma_step_modulus(2, s, 0xda5eb3687d823f7cf884a5a92db8b982c0721bb5998bb6c615cff36dd18a98cint, 0xba456c96343949f1d32d38e5caea0ed1e41471412fd0aff8261ed28d5342ad6int, 0, 0);
    let s = lemma_step_modulus(2, s, 0xeeb13677b939fdb3ec6acb6e21f97a5dfa938fb2f72c4b8a502e996ab221a72int, 0xde8dfbf2f98cb00d8f5a20c1efd1328cf90a3a7fd61bb2874e1d1e0b2f90482int, 0, 0);
    let s = lemma_step_modulus(2, s, 0xae8a672b4766d5a7a6951a835c83444057bd92c63ecd09803b413ca5d59086aint, 0x77006f12394ca0140f952afb0b1ea764057979daac2dc169968ae18ced88258int, 0, 0);
    let s = lemma_step_modulus(2, s, 0xda923cf7a4ac12babc1495d5c3b9353d4722a308719de1feca29eb8de3986cint, 0xba9d635f5d71e8eb3c122ed3fc65ea769b26856a0410b85113ce75b0c0e4cint, 0, 0);
    let s = lemma_step_modulus(2, s, 0xdce37a1629a69198e739356a6beec1d24e9fbee7cb986f1b15d8ce7699a8d34int, 0xbe97c3f7d51d4942f4c1ecf208272645e722aee238e8ccd9d1ae348957254cdint, 0, 1);
    let s = lemma_step_modulus(2, s, 0xba7389f44f9470eef1c4caf5c10d2faea27ac648e921a5684f935c8db07b38eint, 0x87cc189c3f7a99cd5a9327c335017b9b012a7be0246784a598ba24f9bf18b9aint, 0, 1);
    let s = lemma_step_modulus(2, s, 0xebf7cd43c7c401c4cfd45c37ef660ec9090a3508823ea45e4c5bc35b9476e64int, 0xd980e2b82e22f75cd6a95fca3accb640005faa70abf68dcf1e78b3657e6af8cint, 0, 0);
    let s = lemma_step_modulus(2, s, 0xbb7b604177ab5f2f33079ab6cbc53c68230326ab971103804db3c0c1ed52e74int, 0x894d7a1547ee863af042a6c98522ee00f104d4b6973712c604d0d7fc85053f3int, 0, 0);
    let s = lemma_step_modulus(2, s, 0x444d956b404976bdc03a7ad8f560d9f1ba70a415161fad6977e7f293257e399int, 0x12394ee433e1b90a8e0ba947bc2aa7ad25b7820faa40cf28fbeb9525380767cint, 0, 1);
    let s = lemma_step_modulus(2, s, 0x75395d34340ba0639b729cde46cf76718a7098d8ad4544d219155dc3829994aint, 0x35ad7c0c5ac0c63e1a483d851870f90a6669cdc670d2472af4fe9db7f62f0b9int, 0, 0);
    let s = lemma_step_modulus(2, s, 0xb1e7327783027544067a8775d7006aab2885b35db49c4cb59b6f4d27d6f331fint, 0x7ba1849560cabb8fb6dc3c40f6354e56c2aaa80d49ed1bd107b8812bc911583int, 1, 1);
    let s = lemma_step_modulus(2, s, 0x4b2415404ae37d4391d3409b25d1e30de5265f1cb3a4dd279d15fc34a632107int, 0x160e2989a7b9f7cfaca6d18d19732c157558675984897252e81fc5fa68a4b3fint, 0, 0);
    let s = lemma_step_modulus(2, s, 0xc9724fc5a26cd3f22ce8d6d1f59d88e4328e9707498218716426688ca5537deint, 0x9e84b44f7def20919b9135a7de460576710333fa3d8ddaf8eec40070a4dd57eint, 1, 1);
    let s = lemma_step_modulus(2, s, 0xca9ee03df34364f0662cc1137046e8b63d3c3c9bed21887fa50b1ac090d75cfint, 0xa05f1c7b54cb1b2fbfe890ae63ffaa104c4aecfe8e0e1f3cd06d62c2051f2c2int, 0, 0);
    assert(s.0 == 0xcb372beb854b7ca43b67ea6e032anat);
}

/// The first 128 bits of the exponent of the same power.
proof fn lemma_power_modulus_8_part_8()
    ensures
        pow_mod(2, 0xcb372beb854b7ca43b67ea6e032aa05dnat, 0x1000000000000000000000000000000014def9dea2f79cd65812631a5cf5d3edint) == 0xfa53c23d11b8703aaf609d62256e45b9888b9eeda93086c55dcca7a61001a8dint,
{
    lemma_power_modulus_8_part_7();
    let s = (0xcb372beb854b7ca43b67ea6e032anat, 0xcd2d2ffbb4d5e1414988bd085c0fb019659771ab4a12563b425ca49389f39c7int);
    let s = lemma_step_modulus(2, s, 0xcd2d2ffbb4d5e1414988bd085c0fb019659771ab4a12563b425ca49389f39c7int, 0xa47166d3071a81d66493ff4cac2db90522c4b0fee1b3d1fa78c07cc969e6337int, 1, 1);
    let s = lemma_step_modulus(2, s, 0xa709a7b5cad32af333b813a3fe6e0e132687cc2a5c12338175f2fc3ff6c3f9fint, 0x6cfd992c6746749a43e9c3ea4521aa6597a3edab6c4ca360c9eb6b53bbf3758int, 0, 0);
    let s = lemma_step_modulus(2, s, 0x321ca8e6c18fb80b6ec55c67521a1f4038f78953c208ea502ac0fe3fe1be049int, 0x9cf352f85862961bbed0d6304b194e51e67aa0bfc001975d441a4ed81f203cint, 1, 1);
    let s = lemma_step_modulus(2, s, 0xc30d213690c2998266f9bd5ab4d49f0f66cd29c71d457a8c49d36d737393e9dint, 0x949d014584624693cfa6ce04f869b5d84356b49261dbdb513a4d1752c7bd5d0int, 0, 0);
    let s = lemma_step_modulus(2, s, 0x74c164a67c23be52bcd4f82f1b44a05f9fba363d0fd1c5b9ed055cbc74b0ab9int, 0x353fd54fcb1a0fa11b1fd639ece0d6e8512ec148f31f87595053d4ef6488b13int, 0, 0);
    let s = lemma_step_modulus(2, s, 0x601ab678a59d3105b558d356f231e49372eaa0149f33e7994f586a32de0901aint, 0x24140ba40ec74d096d618976f93c7e60b88b0edcaccacb44eeb56ed8cd9e4f1int, 0, 0);
    let s = lemma_step_modulus(2, s, 0x34736f91a00821f2e1abdc3f08eaa80498ca552f30e2b8c51b79d75ee8cac87int, 0xabf19609678b0b6e695d169e7b4f2e2a96f3bbc44ce73c7315d98573a54aeeint, 0, 0);
    let s = lemma_step_modulus(2, s, 0x37b7f8c5865222f425fcb4a124d371c59751245b50fc75e1e350e56a15f26dbint, 0xc20911a7bdca11a05fdd135920e5e77d2ac85782073c3dbf2345ae6bedc2e4int, 0, 0);
    let s = lemma_step_modulus(2, s, 0xcd7bb8dcfbaad6a67685eb1d0c89baeaecfca9a64eac10a433be834fb7c6645int, 0xa4ef61dd14e7da77f7610aa4e19f3cf59a5d884fa374f9cdfb48afe865ac222int, 0, 0);
    let s = lemma_step_modulus(2, s, 0x6cb9feec7bc3117c6918ddc3176968b9cb198e2a040f75a617f429357214f1fint, 0x2e2d7639f81196bbc0ad066d6f588c44d237a06852125d8c6f7abf26a3a2a52int, 0, 1);
    let s = lemma_step_modulus(2, s, 0xa928dca10a8603f9c7cc128286517155505b18f1f169649c879e3109e7ac3aeint, 0x6fc6f9d2505d6a859baeee41d9ca09990cab12c6bcf73ab8705ce428764eeeaint, 0, 0);
    let s = lemma_step_modulus(2, s, 0x5fff75fc75151244390d1d29aae7e0e5deba63fac95a473a62969c1981c7da2int, 0x23ff987da2379f84fffbfaa9b0f9161ff535f3eda70bb7abdb5b4b04ed06252int, 0, 1);
    let s = lemma_step_modulus(2, s, 0x3c01d1b8e98591fa0269ad04837422e903b9ac62110112616451eb3a151fd34int, 0xe10da51fcb7e254f27606ab9579960a6f8f7b2c5ce58d9ef4529e2cf68cb5dint, 1, 1);
    let s = lemma_step_modulus(2, s, 0xdb6333397234e1c8ed9d5344d21e7ed4e34f4d0475be438fd57a251fe73f901int, 0xbc02e014f214bf998868b2501a5aa668e645596d879b461a07fe52fd91da674int, 0, 1);
    let s = lemma_step_modulus(2, s, 0x1de5b9607217e0486f9a472c1d130ba4a1e6659e4bb5a6cc0f0b6206ee0793aint, 0x37dda2506a210c3f1cacbbe96fdc4ba79951f76404bab22c32fbf3aaf6e6aeint, 0, 0);
    let s = lemma_step_modulus(2, s, 0x105a85df02de7e55321fa08c7b464e8c84f79a0840ce8bcde3d4c2623ace80eint, 0x10b70be472b4f7ca9180c2950fe8b24b6989cc42cf96102f325d4146de6cc3int, 1, 1);
    assert(s.0 == 0xcb372beb854b7ca43b67ea6e032aa05dnat);
}

/// The power 0x32cdcafae152df290ed9fa9b80caa8174cb of 2 modulo 0x1000000000000000000000000000000014def9dea2f79cd65812631a5cf5d3ed.
proof fn lemma_power_modulus_8()
    ensures
        pow_mod(2, 0x32cdcafae152df290ed9fa9b80caa8174cbnat, 0x1000000000000000000000000000000014def9dea2f79cd65812631a5cf5d3edint) == 0xe381cc0cd12e8ef0ab69280375355e8f168736a972734a7e7a129da2cefeea5int,
{
    lemma_power_modulus_8_part_8();
    let s = (0xcb372beb854b7ca43b67ea6e032aa05dnat, 0xfa53c23d11b8703aaf609d62256e45b9888b9eeda93086c55dcca7a61001a8dint);
    let s = lemma_step_modulus(2, s, 0xfa53c23d11b8703aaf609d62256e45b9888b9eeda93086c55dcca7a61001a8dint, 0xf4c7b2c6cd96563861cedd99122dbde10d9da9f7f1ba9b6513f463e33321301int, 0, 0);
    let s = lemma_step_modulus(2, s, 0x46d0f5a8c6cc5897f8d9eaf5bc6b8044999c6e4a66ffbcdd6314be0a5c686bcint, 0x1396f0e86ab7484bbb33748c51ea3e12d626cb1d3bc4bae23d580663f7fa989int, 0, 0);
    let s = lemma_step_modulus(2, s, 0x96265ed706351f52083a1e7887502ea059d1e4f6a0876ae225d769f8bb07b3bint, 0x5810fce4463eb5a3de5fef489e88ee0916085d42448f41c1497d5f825d7ce4bint, 0, 1);
    let s = lemma_step_modulus(2, s, 0xcaf00d50c5c305a5fcc2824b506d71d3176252f64274b25efe07d20e9b1e654int, 0xa0dfb61c703be0268b5900fff4f2ee6ceab7660ea8d950b9a9b6159659cda28int, 1, 1);
    let s = lemma_step_modulus(2, s, 0xeeb5150006ed2266da0bbac55cb9d816f9ed9b35715a0458df60830d366523int, 0xde953322c0a3b86ccab2fce8896acf824ec2343deaa755a274ed3ac34768bint, 0, 0);
    let s = lemma_step_modulus(2, s, 0x77e5d7cad7127688a8b785d8a858d8d67e987493b63fec451696ed34f6b531aint, 0x38277cfa5abe47343e451641d40f2e57976f048b5ff9bc98d91a44a8c421508int, 0, 0);
    let s = lemma_step_modulus(2, s, 0x89eed4e339af34f65809eaec7a12598160a7d3437907608b6e5fee94d8ace3cint, 0x4a517eabbb45e9afadb5bc119ffeb0773c4c3ce8c853f68fa3468a371fd65a0int, 1, 1);
    let s = lemma_step_modulus(2, s, 0xdd4b94bfb0e1c9bb6a6ee512e7728e55be9d6990162b614ba8c44e387bf7df3int, 0xbf4b95237625aea845f6c9bbd3c87cefc0c75c28ca696a716f1e4ce372227baint, 0, 0);
    let s = lemma_step_modulus(2, s, 0x4055c831ddb718eab7ba00f37ed75d42ad061a566f5ca461ab2fd06a321f77int, 0x102b00d77c86bc309ec6eee53b056845490ecb3b730667d969a924de6bc79int, 1, 1);
    let s = lemma_step_modulus(2, s, 0x77f63423193ef783039ef874ae032150d53234a1620429a96a82a65083bd0abint, 0x3836d140df8b5630fb6b03a1f5e58f26594fe1da82b4ae5b6d21d9418c6f6b0int, 1, 1);
    assert(s.0 == 0x32cdcafae152df290ed9fa9b80caa8174cbnat);
}

/// The power 132 of 0xe381cc0cd12e8ef0ab69280375355e8f168736a972734a7e7a129da2cefeea5 modulo 0x1000000000000000000000000000000014def9dea2f79cd65812631a5cf5d3ed.
proof fn lemma_power_modulus_9()
    ensures
        pow_mod(0xe381cc0cd12e8ef0ab69280375355e8f168736a972734a7e7a129da2cefeea5int, 132, 0x1000000000000000000000000000000014def9dea2f79cd65812631a5cf5d3edint) == 0xfbd97e40ae3c50fbea15e2d20f84213dcb83fe72abebba41824c63502a1d792int,
{
    let s = lemma_square_start(0xe381cc0cd12e8ef0ab69280375355e8f168736a972734a7e7a129da2cefeea5int, 0x1000000000000000000000000000000014def9dea2f79cd65812631a5cf5d3edint);
    let s = lemma_step_modulus(0xe381cc0cd12e8ef0ab69280375355e8f168736a972734a7e7a129da2cefeea5int, s, 1, 0, 0, 1);
    let s = lemma_step_modulus(0xe381cc0cd12e8ef0ab69280375355e8f168736a972734a7e7a129da2cefeea5int, s, 0xe381cc0cd12e8ef0ab69280375355e8f168736a972734a7e7a129da2cefeea5int, 0xca2f71ae0287d07159a3428cc529362499143961ba0edc71487fd42094fa119int, 0, 0);
    let s = lemma_step_modulus(0xe381cc0cd12e8ef0ab69280375355e8f168736a972734a7e7a129da2cefeea5int, s, 0x5ffa39602c24db7412d3efefa680ccbf454dadacd4d9981802d3378c5207734int, 0x23fbab297d758aa651a90a3358af6a557274c2ffb8841ee2bb40060866bb158int, 0, 0);
    let s = lemma_step_modulus(0xe381cc0cd12e8ef0ab69280375355e8f168736a972734a7e7a129da2cefeea5int, s, 0x79769f1d93e9af1735a0a5a87d49727975dbd0a76ded5bd5aa928707e6aac18int, 0x39a1596107fd041879fe00f689869bd30a38e17e1a216763afcee5894709209int, 0, 0);
    let s = lemma_step_modulus(0xe381cc0cd12e8ef0ab69280375355e8f168736a972734a7e7a129da2cefeea5int, s, 0xa2b864e621b322ee2dc251bebbef65ecff12c11867f8e634bf6c45f645ea4ebint, 0x676de484753bc2ec2de83ae036b54340e2c708b184f1172afef0dc1bec6a463int, 0, 0);
    let s = lemma_step_modulus(0xe381cc0cd12e8ef0ab69280375355e8f168736a972734a7e7a129da2cefeea5int, s, 0x3fcea20ad2d5bee950a8b0bf68e55cf03bd3619e7fc16ecbb6df366e0af2712int, 0xfe75a8a83c23741c1266a787d81e7a4b053610e76928c0d4271b552c3373d3int, 0x3bbaf28fddd759f95bbcc4ab90abc44ea48197fdba99bd57f640d30323920e5int, 1);
    let s = lemma_step_modulus(0xe381cc0cd12e8ef0ab69280375355e8f168736a972734a7e7a129da2cefeea5int, s, 0x8e09a5dcfd88719498ed197f78bd989f1f486f2df52c2b3a22c477657e018c0int, 0x4eceb45e3e43cf2f761d86b645d69cf451ccd1015aae53918c8db4fc80f87e6int, 0, 0);
    let s = lemma_step_modulus(0xe381cc0cd12e8ef0ab69280375355e8f168736a972734a7e7a129da2cefeea5int, s, 0xad6c1646d74c71521dfb62e0741b38645d81cda18bfd56ff137d02d17e32e12int, 0x757b43be8cb33a443028a2f9ce0f0e09ac88312a7b6dad5bd45c88d5f55563aint, 0, 0);
    assert(s.0 == 132);
}

/// The generator to the power of the modulus minus one, over the prime of 108 bits.
pub proof fn lemma_generator_without_of_108_bits()
    ensures
        pow_mod(2, 0x1a321ca95c2ebb112ba865382e687eac038acnat, 0x1000000000000000000000000000000014def9dea2f79cd65812631a5cf5d3edint) == 0xfbd97e40ae3c50fbea15e2d20f84213dcb83fe72abebba41824c63502a1d792int,
{
    lemma_power_modulus_8();
    lemma_power_modulus_9();
    lemma_pow_mod_mul(2, 0x32cdcafae152df290ed9fa9b80caa8174cbnat, 132, 0x1000000000000000000000000000000014def9dea2f79cd65812631a5cf5d3edint);
    assert(0x32cdcafae152df290ed9fa9b80caa8174cbnat * 132 == 0x1a321ca95c2ebb112ba865382e687eac038acnat);
}

/// The first 16 bits of the exponent of the same power.
proof fn lemma_power_modulus_10_part_1()
    ensures
        pow_mod(0x1bf850faaint, 32768, 0x1000000000000000000000000000000014def9dea2f79cd65812631a5cf5d3edint) == 0xf37d06ce952305815cacab1e750b82ec4665a7525aa9517c27319e78e966c67int,
{
    let s = lemma_square_start(0x1bf850faaint, 0x1000000000000000000000000000000014def9dea2f79cd65812631a5cf5d3edint);
    let s = lemma_step_modulus(0x1bf850faaint, s, 1, 0, 0, 1);
    let s = lemma_step_modulus(0x1bf850faaint, s, 0x1bf850faaint, 0, 0, 0);
    let s = lemma_step_modulus(0x1bf850faaint, s, 0x30e51f1dcf3995ce4int, 0, 0, 0);
    let s = lemma_step_modulus(0x1bf850faaint, s, 0x956b8bbdcd290dbe810917219023cab10int, 1395, 0, 0);
    let s = lemma_step_modulus(0x1bf850faaint, s, 0x65dd90dc2f3d4676a648950cd8cc69babd9f04214ce2f895426a184523c8c89int, 0x288894112b685beb715e847728ad3d956f9c17803f834072bc9866afc819f36int, 0, 0);
    let s = lemma_step_modulus(0x1bf850faaint, s, 0x67deb761a8c9ccc90c7412ef94bb1c7e0c5be16ef89d54470462db690763a53int, 0x2a24f953268fe55acfb51c921c1c568296996bff6bfee5fcf6b094b7071abbdint, 0, 0);
    let s = lemma_step_modulus(0x1bf850faaint, s, 0xc15df4bb29c9575884f21820ae14ce812a9b262db42ca2a22e98d032023f1f0int, 0x920ecd7deef3427ad03e155b274afeee9c92386e1a0169766cba392bc7ae1c8int, 0, 0);
    let s = lemma_step_modulus(0x1bf850faaint, s, 0xed0c30975e3d043a34f64e6690ba235a45e6f43a143e717f0e4dbe85202e2d8int, 0xdb7f928cdbe6ec635bc6b26ddc4128044c96b9ed66f3b6fcf077f5d00e68edfint, 0, 0);
    let s = lemma_step_modulus(0x1bf850faaint, s, 0xe048ecc40805b49501d406074c8380560406fb41744d3cea3c6885df7c304cdint, 0xc47fb31d1748842124f3acc3bf190ec34f75633e34d17aba5a9c8ab39df75f4int, 0, 0);
    let s = lemma_step_modulus(0x1bf850faaint, s, 0x3c2b737723d4f757a8cbd360092a219dbe96bb0f79e836449fb458691c8bd45int, 0xe24657fd6e61f1fd9cce180a447328d5e8aeb1eb14277113f788544c77954aint, 0, 0);
    let s = lemma_step_modulus(0x1bf850faaint, s, 0x7d7e07a42b84d845528d695b6beeec5d9088103aaa40f0f6ebcb95e9f2bc117int, 0x3d845181d854f5a1a44a25038645405aaf39f1e3d02dfa910f8cbf9cd66ec85int, 0, 0);
    let s = lemma_step_modulus(0x1bf850faaint, s, 0xa35e5c95f9cfee2a6bb6ef9157c8ad692744f2a397ea27b1c58aca7dcda19f0int, 0x68414caf1bbe61671f51f0696f6051aafa152fffef967ac7e83deed03b8a412int, 0, 0);
    let s = lemma_step_modulus(0x1bf850faaint, s, 0x434d99263c8215dc723e02d3cf0dfbe6ab16df67af70db727aa78790fc0656int, 0x11b1b5af804b37bc0d76692226e4e58540b06a5cdc0787f667e78457211adint, 0, 0);
    let s = lemma_step_modulus(0x1bf850faaint, s, 0xb1e4cb94b1de0f1b21e6ff4d2607104f9651f10cc60fb0f1f620444d3bb30bbint, 0x7b9e2dfee0b70ce2bd812124b4d1772a5befaabd0b07146ea817aa6f450d91bint, 0, 0);
    let s = lemma_step_modulus(0x1bf850faaint, s, 0xbf2bfbbdf9a216d49248229603db4a7bcff7034e9b1dbe6c9a5517a2fd7699aint, 0x8ec2a93403dfcf0343380b9b561e721b5beb47fb090567baf5134c897ffee92int, 0, 0);
    let s = lemma_step_modulus(0x1bf850faaint, s, 0x7966a4dc605fc22066fd6f3ff619fc803a17bc8c4c7bfecb0cb9354a4ef7d7aint, 0x399231001ce26b01ccc4c62ecc3d7a60f9a1ca6f7441783a3ebd0fd2bd07b11int, 0, 0);
    assert(s.0 == 32768);
}

/// The first 32 bits of the exponent of the same power.
proof fn lemma_power_modulus_10_part_2()
    ensures
        pow_mod(0x1bf850faaint, 0x80000000nat, 0x1000000000000000000000000000000014def9dea2f79cd65812631a5cf5d3edint) == 0x310adf89e06e1c84c0eafccfd2d79cd5a9f1d39bc10bf8c7250a94ab46cdb15int,
{
    lemma_power_modulus_10_part_1();
    let s = (32768nat, 0xf37d06ce952305815cacab1e750b82ec4665a7525aa9517c27319e78e966c67int);
    let s = lemma_step_modulus(0x1bf850faaint, s, 0xf37d06ce952305815cacab1e750b82ec4665a7525aa9517c27319e78e966c67int, 0xe79697fbd50c7658f5c5033743399fafa7c77699a6a2d18258662e875c37bf3int, 0, 0);
    let s = lemma_step_modulus(0x1bf850faaint, s, 0x1fefb905d24adbc2aeca881851b8bd195d36ebcd4998b2c02ff49f361e9087aint, 0x3fbef4a67863311912247cabdc7cb47e28d1b66ad2188a64fe62d74ca3ccf5int, 0, 0);
    let s = lemma_step_modulus(0x1bf850faaint, s, 0x378610ae7ef812ebcbe10fed020233001fcbcd493ab51ebd30a5c5eba502c53int, 0xc0ae1607251caa4fb04797e91dce43e24701bf453fd04596f6d596011eef73int, 0, 0);
    let s = lemma_step_modulus(0x1bf850faaint, s, 0x483f9326571faeb900a04d84669fa2820f3ca81d40ed38d4b787456517e2c72int, 0x1463d28f5275c1ac6d1f5cd26ffc7d336ae41039933b22bc04a2881694bd63bint, 0, 0);
    let s = lemma_step_modulus(0x1bf850faaint, s, 0x42ea775440b4852d4fe3484096060d059a3fb44cb38322fe2707fc0b4b06d25int, 0x117dbc45cf02ce912ea984a552b2f067ecc83b6b244e8a514c69ffa2473272bint, 0, 0);
    let s = lemma_step_modulus(0x1bf850faaint, s, 0x996be9a12f880b7c561448aacc16ae38a894f675d3b1f76b2bdda4db15dd38aint, 0x5bf22abfccc52776afae3769f4bed9900dd91158cdf8be30077436860140241int, 0, 0);
    let s = lemma_step_modulus(0x1bf850faaint, s, 0x89bbf0dcfa030cfd639b9866621f2608a1132fb62d5f8697b82398b407a1d37int, 0x4a1ab1c6490b97e0908f721d60eb8f9ba1d2ff16276077104f5b11d7660b7b0int, 0, 0);
    let s = lemma_step_modulus(0x1bf850faaint, s, 0x38845c6da72fdd44c9209d8c92de8fc5ee7cc5cbf76d353f44e7b4a016163e1int, 0xc7a2cdf6b98594c79e907556d2644f4dda39028f4fd5c63b865b124f76fa2eint, 0, 0);
    let s = lemma_step_modulus(0x1bf850faaint, s, 0x8ebc29e6bc445162b9a9471a2a37235307a32864258d30f15cd7304021a452bint, 0x4f9548c98a9c06e5c640c223a13832a11a271d90a3c0e95b9ad75151d9b3f16int, 0, 0);
    let s = lemma_step_modulus(0x1bf850faaint, s, 0xbc9ba82897f3c4ae3b5a086ee6c1ea89ca440680774ad17f43460b025a5abdbint, 0x8af4fda0aecb57efdaabb9e654509527beecfc945c7da2a085a90182fbd5e1cint, 0, 0);
    let s = lemma_step_modulus(0x1bf850faaint, s, 0x4ff966517dcce4bc7ed6cb0e7029b2c8c3ab8443e983b7307b06561e1ff196dint, 0x18fbe01e7f1037f16cb7fee2c5b42352a4242d50d178f8b9aabbb198aabf9b7int, 0, 0);
    let s = lemma_step_modulus(0x1bf850faaint, s, 0xad68c16698c3d80a6f9971c917c30a5bd015f4ded5f75633962c5a4638174feint, 0x7576c0425ff0ac9306491b6bc416a42ceae07d31553200ea4bf337408a7a0a2int, 0, 0);
    let s = lemma_step_modulus(0x1bf850faaint, s, 0x79720cb6c6ac999348cc51589112e592667f42e47f973fed3f5713a71d3f00aint, 0x399d02d41b39c00547fd990b64d04b83d48599016af5f198ee8e0f20920cd5eint, 0, 0);
    let s = lemma_step_modulus(0x1bf850faaint, s, 0xae2100cedb8e1d6ae5dec246b3aa86d3cc45b8f77a55045f06be88f95f6265eint, 0x7670e15a67ca71c6fb0de0c9b03a534358f50137ac4384652cc95445bab8c22int, 0, 0);
    let s = lemma_step_modulus(0x1bf850faaint, s, 0x11d9928dc98c1dc52fb844cec016b6709002be110cc30e276296786978d490aint, 0x13e9e609d0a53ea1d9c689d138e1bdfe34deedc291f44cd107eb2ee1d7c55dint, 0, 0);
    let s = lemma_step_modulus(0x1bf850faaint, s, 0xaa09db87160cfd3e90df24556ca2d93f9483af24a4dfb9a1d9f6d301b6c564bint, 0x70f117f09509344363b0ebfc0f150ebffa685638ab97ab2119f5fa3dc8005f4int, 0, 0);
    assert(s.0 == 0x80000000nat);
}

/// The first 48 bits of the exponent of the same power.
proof fn lemma_power_modulus_10_part_3()
    ensures
        pow_mod(0x1bf850faaint, 0x800000000000nat, 0x1000000000000000000000000000000014def9dea2f79cd65812631a5cf5d3edint) == 0x4e4966bd9f3229315e97324bae65160e1136c3161e18f0cd6922e2ac88db038int,
{
    lemma_power_modulus_10_part_2();
    let s = (0x80000000nat, 0x310adf89e06e1c84c0eafccfd2d79cd5a9f1d39bc10bf8c7250a94ab46cdb15int);
    let s = lemma_step_modulus(0x1bf850faaint, s, 0x310adf89e06e1c84c0eafccfd2d79cd5a9f1d39bc10bf8c7250a94ab46cdb15int, 0x9652a0901e12ec6dc83b69805c5fe0d2c1694d9ee3f3d8ba60521d88b974f5int, 0, 0);
    let s = lemma_step_modulus(0x1bf850faaint, s, 0x3faa7a6ba2be64434775f7c62c2243a53ce71c04037d644f9ee2813b3a4b9e8int, 0xfd559c7cb989e9530b46d78eb457ebbe32f5fa81624744dcb4eecea2798bccint, 0, 0);
    let s = lemma_step_modulus(0x1bf850faaint, s, 0x3e93354c008a308e8ac10c3bec58f5decbfd04bc7b4be3ee5c135ea75459264int, 0xf4ba27710a41d025911004fc7dff43b2de8ea0660cdb387ecbcaf42ba08818int, 0, 0);
    let s = lemma_step_modulus(0x1bf850faaint, s, 0xa3922759b7c8be4732b144f9555966714ac9fdd5872c6f15f61018b12dc70d8int, 0x6883718d286bb8b82b422c6f1881886fb3dcbc25133f397fa5e90fe23cddc05int, 0, 0);
    let s = lemma_step_modulus(0x1bf850faaint, s, 0x40cc35c8ff354a01b421b3dcf34e535cc4517dc73f3d94c6dbbedf5647e69fint, 0x1066bdca433e396a9f1b7b6ba9e22aeacab4a25a5bbc387c8b9112c5563afint, 0, 0);
    let s = lemma_step_modulus(0x1bf850faaint, s, 0x4a05e061a6de35833fe96c7939e5dcccbdab7fa91b399879174c964d94290beint, 0x156765dafcf404e2b6e29d6a50a2ad177d6d18a3e02a0e68b0af4ff87f21a20int, 0, 0);
    let s = lemma_step_modulus(0x1bf850faaint, s, 0x34fa0f7e0e4cd2b70322832f8c0d076ef6e19b24379c7bb1070ca2d2883bd64int, 0xaf68a8d78f32764fbd58152798df08020932cb0f5ac31f357fcc578d85efefint, 0, 0);
    let s = lemma_step_modulus(0x1bf850faaint, s, 0x2f0c456dc3fd21de0a2bcea8916567f9e85bd31982a10e84d871ec0b2f8b1cdint, 0x8a58214e315ace1a4692e71c4bf8e3c283894744b3be6a9bc62843ac120ef1int, 0, 0);
    let s = lemma_step_modulus(0x1bf850faaint, s, 0xd984a20a77116e2261325773fd942c4b96dac7b02279f54553f98bff4ffa60cint, 0xb8d21f6d3f3795cf705ce773e86f9c06e6d4cfafdb21cffcf32cb5de703dd81int, 0, 0);
    let s = lemma_step_modulus(0x1bf850faaint, s, 0x2647a3587a7004df33b2f84c955e4106dd05896b16f2f6ad760d1fcb1012d23int, 0x5b9588a47a6f61404ee59eeeaba9dedc0f08ae4f0af0f1142994e5bb046e44int, 0, 0);
    let s = lemma_step_modulus(0x1bf850faaint, s, 0x823ef6f2581b6f05d90f4aeda92bdbdbca45e0ab78a484caf7d5fbb072b31d5int, 0x4244024aad1530cb22d8aefe107546182af8534afd241cb66449aa497b8d11bint, 0, 0);
    let s = lemma_step_modulus(0x1bf850faaint, s, 0x93f71c463a7fb13bedebf054d24cbbd8bbb4bf755cce8142bbf26ffcff7643aint, 0x5585b90039d2f802ceda381d62c4d2376cf32399f8c27c0e6cc6bb3344626b3int, 0, 0);
    let s = lemma_step_modulus(0x1bf850faaint, s, 0x8408fc71ca093b4ae89928450c2e5430e46bbeefa4a8fd0221d197dc703006dint, 0x441944a618665e0f1ce0df10076fb21afcf464e1b0a0d12cf86a42c1d0f5a49int, 0, 0);
    let s = lemma_step_modulus(0x1bf850faaint, s, 0x43ac2ea1c1a06649f7dd5fc2fc9151afd830839af108b6930304bcc46106dd4int, 0x11e394375d34acdeee196e719e24a00d095dd028d1204bfb3c6799892e2fe1eint, 0, 0);
    let s = lemma_step_modulus(0x1bf850faaint, s, 0xe810bb31d65ec0ffe4ef05b528f3b28df4a5195d2f1e151f3015c10cb503bcaint, 0xd25e546243a8628a20ac206206e23f87b9df33ebf67db84aa6f649fe907a43aint, 0, 0);
    let s = lemma_step_modulus(0x1bf850faaint, s, 0x3f3260c609ee765727d22139d67c5842fcddee2cc1f7b4c30d72ce2bc45e3b2int, 0xf99d58b6ad4600b55a8099105af09c60f163939b90f98262e7f8d0fb637c3cint, 0, 0);
    assert(s.0 == 0x800000000000nat);
}

/// The first 64 bits of the exponent of the same power.
proof fn lemma_power_modulus_10_part_4()
    ensures
        pow_mod(0x1bf850faaint, 0x8000000000000000nat, 0x1000000000000000000000000000000014def9dea2f79cd65812631a5cf5d3edint) == 0x6fc2754c1e35002d311c7f55114ec02a68b23a9c21f65156edabb2e551be68cint,
{
    lemma_power_modulus_10_part_3();
    let s = (0x800000000000nat, 0x4e4966bd9f3229315e97324bae65160e1136c3161e18f0cd6922e2ac88db038int);
    let s = lemma_step_modulus(0x1bf850faaint, s, 0x4e4966bd9f3229315e97324bae65160e1136c3161e18f0cd6922e2ac88db038int, 0x17f0cfa74e630305ffaf9826662d3f2a8540e1d9e5145ea5ebe7df83b5d281fint, 0, 0);
    let s = lemma_step_modulus(0x1bf850faaint, s, 0x12a64824ad74a1c148b35ae59a75bb827c1a3f99fa5aea2f29311add0025a8dint, 0x15bce26cc4a00d3ce349065bab091482dbd6a2dfe1984f6dcbde4084cafa60int, 0, 0);
    let s = lemma_step_modulus(0x1bf850faaint, s, 0x40fa132c5ce4cbfcb7be9da3c41fcc9e41c5adced5ae87c86926a92501486c9int, 0x107dfddfa2877256cc19105cdb9a858be59c2899da4ae1e796584521dbcf43aint, 0, 0);
    let s = lemma_step_modulus(0x1bf850faaint, s, 0xee3c67be3c8305bab7069fc24f674e52efbe8ee39e7da231503f201da3221fint, 0xddb45f2683ba9e212b3c8a5594200d601aa0759731595630d2d78274e337fint, 0, 0);
    let s = lemma_step_modulus(0x1bf850faaint, s, 0xe15e16e3b4e9d7dfb3349d9d4f89f3182681f277ef8723623cdf68eb9a3e62eint, 0xc66686d11547d6d448f30e645efd2b2cef1d1f7a75208bb95fba9e548fe6341int, 0, 0);
    let s = lemma_step_modulus(0x1bf850faaint, s, 0x2223db99e81a0a6b1630450d82b10c177755713d6300f254e054b7cd1053a17int, 0x48d8b5aaa1d11871a8fc509caa4f4de7dc81acb7381b74aea6f984a6eaf54eint, 0, 0);
    let s = lemma_step_modulus(0x1bf850faaint, s, 0xa87f90bf991554c7114869e83d047e9dabecda01622bb10d845b0e9e4ba0adbint, 0x6ee7ad8c68ddfe0d2cf126741d1a60707adbbc1a8ea4c8ff1307155786c69c3int, 0, 0);
    let s = lemma_step_modulus(0x1bf850faaint, s, 0x481b53cec55e2a994f82d3b4aee53511a0e2ff734c8b1cc5b0a123cbb8934d2int, 0x144f620f181254d08466652c5a5e1a33b96bbdf4fef2fffe2068b229639d522int, 0, 0);
    let s = lemma_step_modulus(0x1bf850faaint, s, 0xddd9f1de0e0f9e0277ffda11e04c30589d7c57ae48686eda3055ce86feaa5caint, 0xc0420525533ea45feebb96b692d6c3edde927d45c75035190462fb5033a2b18int, 0, 0);
    let s = lemma_step_modulus(0x1bf850faaint, s, 0xecda291011c432db6ead76cdb5386721b8ccf912f6231732d52fe23e04f562cint, 0xdb22f59f96b6269e43d49c7a110456aef87ee5dc2b1ce7c3d5f2b6da3201d78int, 0, 0);
    let s = lemma_step_modulus(0x1bf850faaint, s, 0xa9ad523c0a3224a8aaf2416095f77a1a1b4a8364c817d95ade02ef47b4c6778int, 0x70764beb850680c925101700ba7987fbcac99c93a0ffda0ee54fa56f1351970int, 0, 0);
    let s = lemma_step_modulus(0x1bf850faaint, s, 0x970c6c273012a0c57802ddf71b1e0ff2755df95d715971a2736a1593ec1eb90int, 0x591fa8308c1391f76c7139305b0d83c61497f91de86a8d220d7a72c10dc3d63int, 0, 0);
    let s = lemma_step_modulus(0x1bf850faaint, s, 0x816e3bde8f86acbc31cc05dcec1a4fd39968e1ecc2db079a887878951a54359int, 0x417047cdcde969776d947a6ba18ee8736bcaff3fba87cd949d00ab03781fffbint, 0, 0);
    let s = lemma_step_modulus(0x1bf850faaint, s, 0x5981deb3fde84d52766420344b15feab2eda77842ee555613f8e7c67be4d892int, 0x1f4b8ebb59ae14cd38391195439be582b22fb12b84f2bb484f27b09cdacd9efint, 0, 0);
    let s = lemma_step_modulus(0x1bf850faaint, s, 0x5fe85fa66faf0c586b378dc7022e82e8fd889d0dd7caabdbad7b1e970e5f401int, 0x23ee49eb084b4b88f2bc768f820d36a8df6ff56edb77d7f3b8e883bee0e923eint, 0, 0);
    let s = lemma_step_modulus(0x1bf850faaint, s, 0x28fcea7e03b5efe2a929fee962333832e20ce200c94f9c40ced2663aeff6a9bint, 0x6900325e00ac5f75cca6fa27cc61d9045a2515b31957d86bb6898516bfd0e1int, 0, 0);
    assert(s.0 == 0x8000000000000000nat);
}

/// The first 80 bits of the exponent of the same power.
proof fn lemma_power_modulus_10_part_5()
    ensures
        pow_mod(0x1bf850faaint, 0x80000000000000000000nat, 0x1000000000000000000000000000000014def9dea2f79cd65812631a5cf5d3edint) == 0xb61128b9eb2665640979b8eeb4f8c959eb0600c9c2b67d48d0d4f1e499c17d4int,
{
    lemma_power_modulus_10_part_4();
    let s = (0x8000000000000000nat, 0x6fc2754c1e35002d311c7f55114ec02a68b23a9c21f65156edabb2e551be68cint);
    let s = lemma_step_modulus(0x1bf850faaint, s, 0x6fc2754c1e35002d311c7f55114ec02a68b23a9c21f65156edabb2e551be68cint, 0x30ca356dff4e68b9da470659a178edf3008db6ecf466bd34dad45b89e89067bint, 0, 0);
    let s = lemma_step_modulus(0x1bf850faaint, s, 0x66074877a2d1a0d9098cbf07cc669f9bd1ffc65b4e64111caf704e84c3e7bb1int, 0x28a9cdf460cd77227066484d6d24ae8d5b30d5a1e2d7e3e8c91fc23e6f41175int, 0, 0);
    let s = lemma_step_modulus(0x1bf850faaint, s, 0x409aaadcec47919834c89a2ecc23226f5f27df0e07d2f6f4a491a2c822ef810int, 0x104db2e079fa375d47f83a98c27b3ce054856aa643724802bbf71fc7839a68dint, 0, 0);
    let s = lemma_step_modulus(0x1bf850faaint, s, 0x3548dea56a2e16db64d293ebd4cd351cdb9b4f700e9bb0c79ab6be273889977int, 0xb1740ee7ca61e6dae401499f3256e064bbbf1e5e53a522a0fff6c2e4079367int, 0, 0);
    let s = lemma_step_modulus(0x1bf850faaint, s, 0xc54199ee495331e9124c5da5aef39f7a6be9b700d3d40ecd0c19cd1e55b19f6int, 0x97fe07b84469f881ebdec5a62ea06e79e4fac4707b48d4b0b0cbdba79ca4ac9int, 0, 0);
    let s = lemma_step_modulus(0x1bf850faaint, s, 0x98e58e30f5d4c136e5214e8ad0623d906f680a3a1c8eac8f2cb63a1493e114fint, 0x5b5166b1d67ece27fe7fc045e2bdfcd9cb0c0a49fe4e11ec556c4fa760fbf7aint, 0, 0);
    let s = lemma_step_modulus(0x1bf850faaint, s, 0x9b62211aa11452c55551c633be75d73d7279758738d4fe2ceaa42d51247c46fint, 0x5e4ff9b39bb9d016af389a6c10df5152a6fb8f3125dc49221d863c6b0fb70f0int, 0, 0);
    let s = lemma_step_modulus(0x1bf850faaint, s, 0x83ee02b3119c7a21a2d1401555fabc068c4c1010c4a9552ba072009bbbec9f1int, 0x43fd740c49022d79971e5e1b7e2cbaf5e0a5dfda56586b1552cfe732487ab9bint, 0, 0);
    let s = lemma_step_modulus(0x1bf850faaint, s, 0x9445f62b9cd14b72004b47f048ae8cdb057cefca7ed3c753072e32e3a6b562int, 0x55e0f7c10d8c60dec72963ae99d930e54bda01db9091737ec0a80adad3616int, 0, 0);
    let s = lemma_step_modulus(0x1bf850faaint, s, 0x76d2baedbf771e85f264f954f95eab6f3ee0cc6a782515d7d4ee5cc4f9e8526int, 0x3726f1ca630e4696b952e2ba326f37e0d8e9567e5848407e5a19577bec61057int, 0, 0);
    let s = lemma_step_modulus(0x1bf850faaint, s, 0xef764e3e675ff201ebc299c0fd653f47c3b1cd6f54c0998f746478a5010ac19int, 0xdffe1cc4be76888763ab6fc7ecebed48a5720a89b28898abf50ea7068c7d39bint, 0, 0);
    let s = lemma_step_modulus(0x1bf850faaint, s, 0x6623e48fa45035281fa89e2e92349e3d76f92d361198bea5fbf9f24ab12f2f2int, 0x28c09f2ac24705925bf4be9cc20f0c655da470d5fbeecc273516228120f6764int, 0, 0);
    let s = lemma_step_modulus(0x1bf850faaint, s, 0x7d839268809a24a8755ab768ae69b9e8242dfaa624c60409de15dfd0f684930int, 0x3d89c099384582e696ab222757a5e4280d65c1f858798938c75779ee35cd22aint, 0, 0);
    let s = lemma_step_modulus(0x1bf850faaint, s, 0x3f5e5361e732f3a73db03ad0e74e122b3c92e9abe1829b71dd6aed0f3933a1eint, 0xfaf8fcb86d97eb34e961ef6ef8161ec8988949ef59fd22086c4a1388dbe98dint, 0, 0);
    let s = lemma_step_modulus(0x1bf850faaint, s, 0xd87b668f64c7c6896da29febfc5b22908a45c704d42aa203671e269a9e2cfbint, 0xb710788db0f28ba1a223c80b9b055fc5d3384591880c2646ff86d158c415aint, 0, 0);
    let s = lemma_step_modulus(0x1bf850faaint, s, 0x96598cfa3a8acaa6e9037552032e01f5cfa1ddd648a14e93b7580c319e38fc7int, 0x584d10889039fe9ab33b9dd14fc79561a0a2fe434b299e9aa9955712d41c6b1int, 0, 0);
    assert(s.0 == 0x80000000000000000000nat);
}

/// The first 96 bits of the exponent of the same power.
proof fn lemma_power_modulus_10_part_6()
    ensures
        pow_mod(0x1bf850faaint, 0x800000000000000000000000nat, 0x1000000000000000000000000000000014def9dea2f79cd65812631a5cf5d3edint) == 0xf684b64c40a8a7b44f9164b17cf4e594df31965e1e72964962eddff90e53c23int,
{
    lemma_power_modulus_10_part_5();
    let s = (0x80000000000000000000nat, 0xb61128b9eb2665640979b8eeb4f8c959eb0600c9c2b67d48d0d4f1e499c17d4int);
    let s = lemma_step_modulus(0x1bf850faaint, s, 0xb61128b9eb2665640979b8eeb4f8c959eb0600c9c2b67d48d0d4f1e499c17d4int, 0x817c670ec98673c569efa6919ffe091fd831f1f2061966fcfcc41386f843817int, 0, 0);
    let s = lemma_step_modulus(0x1bf850faaint, s, 0xb4c1266e457316b992091cd5cdd9d233cd37fe4958d7e0e4501842caf1e545int, 0x7fa02fc609b37b9b25a8df1bcdb57c39d44c8ca8fe70ba29915e9034f060eint, 0, 0);
    let s = lemma_step_modulus(0x1bf850faaint, s, 0x4ba2b00be2d99d0b4ade56583476506ef835b0e2c5ffd584766db4a57b25fa3int, 0x1658ba8a3f06f5e7dfd1002aa9e0c44c3e9180b1d7c9c8cad0f7d644c35356eint, 0, 0);
    let s = lemma_step_modulus(0x1bf850faaint, s, 0xb01d51340c1a32441eb0f12aa54dacf0a6efc2a0dab1967b5d11f8fd9d440f3int, 0x792853031030bd4a8ca83e2e5a08b7fc310ec404197b5a997c99fdee7e012c2int, 0, 0);
    let s = lemma_step_modulus(0x1bf850faaint, s, 0xb5c865ad546e9121883f079492db0def16f35a216465754213dd7339361230fint, 0x8114fca6209a7ff6a6db5f06dd7c26885c1d97b6a4c45a139984ae28d2d103fint, 0, 0);
    let s = lemma_step_modulus(0x1bf850faaint, s, 0xab08d84f8db658e764d1343215efea845f462c84c0559b44c087da2c8c4238eint, 0x7244d1488310ce072a298190da9451a5a0d5900b1afb882c65b34e153bed11bint, 0, 0);
    let s = lemma_step_modulus(0x1bf850faaint, s, 0xdccfae3c73023911ba936c0833b3c0044dc08a48699a7a41c60a669b5884bc5int, 0xbe759bf322040a4be5a2f55188b69c848dae20eeff95c7ef4c07b260f4989b9int, 0, 0);
    let s = lemma_step_modulus(0x1bf850faaint, s, 0x41716c6100aedca7de85da655f0091c0f4cf43c2795359c0f31afd01c180a54int, 0x10bacb4a1ddd63c119e3bd7a8bd4a3fe117abc1b71f294f31e03ac77ca55fcdint, 0, 0);
    let s = lemma_step_modulus(0x1bf850faaint, s, 0x81cd03dba539a9a690de61eb7e3839c2563ae1b25a78fd7946c541541ea03c7int, 0x41d042128a599da70809aee6ee7c63084716db3277416269cec27020e8ff991int, 0, 0);
    let s = lemma_step_modulus(0x1bf850faaint, s, 0x875f6fb7cf4ca6b208c3f345cd15aae555acd8ec90f2f063270fa5fdc18b674int, 0x4795cb67f7cf9c71fd62eeabf1a4dce7fbc2b41de925445cd7cf049d07c48b7int, 0, 0);
    let s = lemma_step_modulus(0x1bf850faaint, s, 0x65d4fc79fd9a083f9fc469e7754ba9ccc1d76fe93a7025b5b87d23c49a7fe25int, 0x2881c06b6527f708d484788b70ae4075a460d10b1dafaa93fa15fed1b876321int, 0, 0);
    let s = lemma_step_modulus(0x1bf850faaint, s, 0xd104713c2b7c83002a123a578ace838d6661c3b501102402c3d01c7dcf378ccint, 0xaaa840f7faf8d652b219b19dccc237241bfa272ab6e52e4ca5542078a4b7ebaint, 0, 0);
    let s = lemma_step_modulus(0x1bf850faaint, s, 0xa285fab7d872ce4c1a159c76e7a6db74726017cd7bd93d0455d23aecaee425eint, 0x672dd76f2683cb2a1227f7d75f4413723e72fd200544c48cdd4364ccdd1f9d2int, 0, 0);
    let s = lemma_step_modulus(0x1bf850faaint, s, 0xd896e501707e265f1ccf1af4ab5f2ee26d216c85ce8643ba3cd3275a5b63d1aint, 0xb73efb63986047d93b2456363c5756823ad7e21af7c1fa86edd4bd4fd53f130int, 0, 0);
    let s = lemma_step_modulus(0x1bf850faaint, s, 0xd33284939266719df6c50a264b0b025f25b8703e0e4be933eee0264aa1c8d34int, 0xae3c508351a29359e107982e9930d57cbdc7f695b2c4d58c1b5c35ec905fb4cint, 0, 0);
    let s = lemma_step_modulus(0x1bf850faaint, s, 0xcd812969bbf42f9ee3599f4e7b283bf10c48a901a0aabbfd0d99e2768dd0934int, 0xa4f81d7e1a478a3c65cd451c62c46c0c342d0c11318b3ab35422204a718dc81int, 0, 0);
    assert(s.0 == 0x800000000000000000000000nat);
}

/// The first 112 bits of the exponent of the same power.
proof fn lemma_power_modulus_10_part_7()
    ensures
        pow_mod(0x1bf850faaint, 0x8000000000000000000000000000nat, 0x1000000000000000000000000000000014def9dea2f79cd65812631a5cf5d3edint) == 0xdd31255dbf4a88cc00b590987e6e932817477bc99f9878a01ba54c81f7d4a9dint,
{
    lemma_power_modulus_10_part_6();
    let s = (0x800000000000000000000000nat, 0xf684b64c40a8a7b44f9164b17cf4e594df31965e1e72964962eddff90e53c23int);
    let s = lemma_step_modulus(0x1bf850faaint, s, 0xf684b64c40a8a7b44f9164b17cf4e594df31965e1e72964962eddff90e53c23int, 0xed6353270cb752e1bdca329d9efd8cd0a6a7be1b3db6e9a81d40080553edfe5int, 0, 0);
    let s = lemma_step_modulus(0x1bf850faaint, s, 0xb2edbfb08f1dde046abd4db680efafa40c3bcc01fd7f8916ee435afb4d666c8int, 0x7d0f7b5e0377755ee2fb2171ea44904af9e12a5bf65b900f19c0d07c16ba585int, 0, 0);
    let s = lemma_step_modulus(0x1bf850faaint, s, 0xc5f1a17e6817b101ee2bad6a72175f822af1bb2f61cd3fe483e0aec4146211fint, 0x990dc69e0214b060ac7b949e93615564dc37be0a0907ee09f2bdc0b4a2edbf3int, 0, 0);
    let s = lemma_step_modulus(0x1bf850faaint, s, 0x82647b9ebb2c83cbdbeeb61fcef90e8a6a328aa3623872e91360305bf0318caint, 0x426a34fe05cd5aea5d14e8bad9f6a30c53fd9f7607d69a4031a4de60d4383d6int, 0, 0);
    let s = lemma_step_modulus(0x1bf850faaint, s, 0xa6858d9b4a6b9505e4a59799f38fa8d7daa255f0e4b25924f107d48022a1046int, 0x6c517951d633473a32b7a709c93747533b25bd0e30376957339e7c3fdfa2f54int, 0, 0);
    let s = lemma_step_modulus(0x1bf850faaint, s, 0xd2c0c7b6cc867846a1f7995d98878a0b4d944d5985770462439d3c99efcc660int, 0xad80d8d4158d1b88cd4495938bb734f725fb3622c4c3f81f34611aa2a1d8fc0int, 0, 0);
    let s = lemma_step_modulus(0x1bf850faaint, s, 0xcad53818395f558f9528190f680a6f7672801c35e1990f238ec5e82b91f4f40int, 0xa0b52e1c9f24870f7c7bf00e13e4422bb8ff1fe07e932f11a3dc14c057d809cint, 0, 0);
    let s = lemma_step_modulus(0x1bf850faaint, s, 0x180c763fbc46666d9eb44be77a88f9e3c303b8f34a5ca696232664b1e8beb94int, 0x24256c73fe5ab3d4393a132056b101467b9e012aab5bcdd092ef820b59a62dint, 0, 0);
    let s = lemma_step_modulus(0x1bf850faaint, s, 0xc63cae41e9a0f68b22e806c65f8ffda700ef1b7427d35069ea9c992c07a1ee7int, 0x9981ebf01ae82b62135003578cbe5393231512a0e722a41692f61f171ad8fcfint, 0, 0);
    let s = lemma_step_modulus(0x1bf850faaint, s, 0x5a51a6c8eb0307723ac243866d9025fe997c8c4f010b0a0f337e610a79634ceint, 0x1fdd83503d0c079f01bc1ccde3fc02c66c7897edd37a70d9307755469248392int, 0, 0);
    let s = lemma_step_modulus(0x1bf850faaint, s, 0x7886e77e3da744ed4e9552a79a216c6e6721b8a2a5da95febd94ee9de53319aint, 0x38bec01d834a6d3f3fff835e95bb23b86776c12a2e845978d52bd38183c3546int, 0, 0);
    let s = lemma_step_modulus(0x1bf850faaint, s, 0x5141ac9f5efe0e5c8614af97718ca69c086da4fc1b3506e253bce9c17d44cd6int, 0x19caa015f7718cf65df6e765cd47cba9d3baa122e1b18afc1afdf157b1fabd5int, 0, 0);
    let s = lemma_step_modulus(0x1bf850faaint, s, 0x7308d312384ff784db1447cdbc33712e98e561eee697c84751e9d9db7b41fb3int, 0x33b0edf03dc267809ec8cede6452f1b40eee4266d65577af09b3caa132be613int, 0, 0);
    let s = lemma_step_modulus(0x1bf850faaint, s, 0xc6f0b1c5d258cef128d17902a7966c22ed34c3e902afa094f7345bb8f302e92int, 0x9a99354bcfbeec5d46fe5be00ffd8e8e7a395bc6f617db72aabef1c2d0f176cint, 0, 0);
    let s = lemma_step_modulus(0x1bf850faaint, s, 0x2eccba0cf60db274f07c4d86760fd69514d4e8b74228c001029535739961848int, 0x88e3695b44be82a55e4ee17677ea7fb942671e9fca9912a9646a20eb885243int, 0, 0);
    let s = lemma_step_modulus(0x1bf850faaint, s, 0xa9585b72536b972de5bf744db04553f6e5db97fe83dd0bddbd352504f8d3339int, 0x7005c73bf167e1ef6d60f2a4bff6e9bf727ad337287af63adad73dff8857de4int, 0, 0);
    assert(s.0 == 0x8000000000000000000000000000nat);
}

/// The first 128 bits of the exponent of the same power.
proof fn lemma_power_modulus_10_part_8()
    ensures
        pow_mod(0x1bf850faaint, 0x80000000000000000000000000000000nat, 0x1000000000000000000000000000000014def9dea2f79cd65812631a5cf5d3edint) == 0xce30cc9e269b77ed013a7e1ecc761e722be30d7566be7161f25a45a7070ca09int,
{
    lemma_power_modulus_10_part_7();
    let s = (0x8000000000000000000000000000nat, 0xdd31255dbf4a88cc00b590987e6e932817477bc99f9878a01ba54c81f7d4a9dint);
    let s = lemma_step_modulus(0x1bf850faaint, s, 0xdd31255dbf4a88cc00b590987e6e932817477bc99f9878a01ba54c81f7d4a9dint, 0xbf1de3f32f9e2658adf46b696c7b2dcb96f1244b71b86b07373f6f5be27c8f1int, 0, 0);
    let s = lemma_step_modulus(0x1bf850faaint, s, 0x94e590a9fe4cc3a1754e04b1e547ff4b0b1f207424c6af24aa021b438f87a2cint, 0x569a3d20afe96680c88a6d5fdfcd9cfc320e0457b139224f564e87b8fbd947aint, 0, 0);
    let s = lemma_step_modulus(0x1bf850faaint, s, 0xd1e7f3d653e3dd7fdae7d183696f13a32ed3f43eaad3ce4d666c673eae8f49eint, 0xac1c8e4dea060b9773202a3e38f7ef2a19c861ff3cb01c894763bf60412a725int, 0, 0);
    let s = lemma_step_modulus(0x1bf850faaint, s, 0x363d6b7fb2e11f4725d04fe81838c992967ad3ec85a39e38b3ab656b8ac5543int, 0xb7df816477637b6145c3ea695c742db0358691ecc4aa910c64e2b55f94051dint, 0, 0);
    let s = lemma_step_modulus(0x1bf850faaint, s, 0x870a334eec48a889c4c754f43db9c882a241afc9720ff24f95cf575316cecb0int, 0x473bc28549a7a1e841d13ee4d0c32a96a6d15df12dd0f8056584d7a8515b427int, 0, 0);
    let s = lemma_step_modulus(0x1bf850faaint, s, 0xb669f340c54419e3fad957be9a724a06ce816dfefc3352d5155d83c696e0be5int, 0x81fad1b98ac2ad8fe8e67139ab03020b2cae729a0d097248e463da1545d0e5fint, 0, 0);
    let s = lemma_step_modulus(0x1bf850faaint, s, 0xbd766da34c94ca3e9f9764e76250f9ad8c8d8eaaba5b8e550eb10a5616fdfe6int, 0x8c3814ac6092c32c39fc38c47a2309d288535415b60ae60ee7c339acb4ac8dcint, 0, 0);
    let s = lemma_step_modulus(0x1bf850faaint, s, 0x16c0a3d478ef64e0927861dce5c2581d935a51a54e0d1930f18121616f13af8int, 0x205ad1eac56cec74a1ec24cb339fd0fc9ed73311d4485cf7985fa34366d4e4int, 0, 0);
    let s = lemma_step_modulus(0x1bf850faaint, s, 0xbcbc43e8fdcf313e56918a04f29d2f7e6ca1b4f69862c190725004bdea64d2cint, 0x8b250e320500e18b59a7f9ccf5088b117da3c53a87bdf1f5ef9d2a09acfb502int, 0, 0);
    let s = lemma_step_modulus(0x1bf850faaint, s, 0xd532a99110920e8daea466e7fa48cf0e0d50710b73f54965658bd5704ee46b6int, 0xb18d5832128e5f5a11b3edb16f79562137465422e11391b29551282e6d0bb03int, 0, 0);
    let s = lemma_step_modulus(0x1bf850faaint, s, 0xcb7b39369c97e3b7f47a58c2a072ba6f16f778f34d75d28979c03fd76b06e9dint, 0xa1bca80ca39cba7ca3c46a76342783bb9c917e41e69d5d97760b7b77779aa31int, 0, 0);
    let s = lemma_step_modulus(0x1bf850faaint, s, 0xa0068fc6229c85ad8fc34ebeaa3a5170fa5c590c9682926fb97d6fca3dd59ecint, 0x640833e2b94c3a73a3fb81e1e55495a42d12578175feb4a6df50f09b7b606dcint, 0, 0);
    let s = lemma_step_modulus(0x1bf850faaint, s, 0x108d7327d7c727127a42375a843176206deee93a58cf73e213948192d5643e4int, 0x111fc8d08a96853bb4b93e3d62fec1a9499d537bfe7aae546e43751569cd55int, 0, 0);
    let s = lemma_step_modulus(0x1bf850faaint, s, 0x3e6d8c105935f876fcfeeac8e9fbaa53514a2ba2f065155ff0ac1bec1a7fc5fint, 0xf393eb87dc3feed8576b0873f6b0220da064c77d9721e1c4e07d0f34cd3033int, 0, 0);
    let s = lemma_step_modulus(0x1bf850faaint, s, 0xa8ac9f9fb32de28d6d39190ad1aa2291da287cc2ae4ef75384d604e053e830aint, 0x6f2305e87d4cc3351d3a01fda8b5d7f15859d1b537fbd57ed576803fa78ed66int, 0, 0);
    let s = lemma_step_modulus(0x1bf850faaint, s, 0x13ae94d6377afd5a7a54ce4bf68d87aadc87e90c4ac5b1794c38df1b7ae62f6int, 0x183612675f81032d7bd26919fb5e5dac2b2f8af0b8e8701ff0122a51f64e67int, 0, 0);
    assert(s.0 == 0x80000000000000000000000000000000nat);
}

/// The first 144 bits of the exponent of the same power.
proof fn lemma_power_modulus_10_part_9()
    ensures
        pow_mod(0x1bf850faaint, 0x80000000000000000000000000000000a6f7nat, 0x1000000000000000000000000000000014def9dea2f79cd65812631a5cf5d3edint) == 0xaba91e3a1ff0ec9ee735bf3dc9a44e0240a5c505fc6955bccd52cee36e056c1int,
{
    lemma_power_modulus_10_part_8();
    let s = (0x80000000000000000000000000000000nat, 0xce30cc9e269b77ed013a7e1ecc761e722be30d7566be7161f25a45a7070ca09int);
    let s = lemma_step_modulus(0x1bf850faaint, s, 0xce30cc9e269b77ed013a7e1ecc761e722be30d7566be7161f25a45a7070ca09int, 0xa612929be4fd1e89dbb6e170675a960078b220b9d6fba2857f52e68a9494e2bint, 0xe31939f0int, 1);
    let s = lemma_step_modulus(0x1bf850faaint, s, 0x275317f1b6a1f82a8665bd58df84320f62c96192af30c2481e410accfb49324int, 0x60a6c442e9f19ae5a5dbd37bc77d11fbc7d5114c4326b0e4acb28efbd42f00int, 0, 0);
    let s = lemma_step_modulus(0x1bf850faaint, s, 0x86df48554c2b58da3380667854d9c20a04c36c4f067e20275918ccf7605da10int, 0x470e827864c82bcd477da6ef7217cd82e9cc71f520d76889173e6167340b621int, 0xe58317d7int, 1);
    let s = lemma_step_modulus(0x1bf850faaint, s, 0xefd188f21d31ad85b05969ba3d9224e9fb828357761d6841cc2d913f511cc53int, 0xe0a8e934f718911cf12f4c7cf730e96beeaa13f6a0d35520ef0f7dd43bd7b13int, 0, 0);
    let s = lemma_step_modulus(0x1bf850faaint, s, 0xd73544494f6a770787001dcf52949b08378e84ef0d0a622c9c88079240fc952int, 0xb4ea83c87bf6bd32e076dbdf115ad044876862d6a28dddd19da93c874477353int, 0, 0);
    let s = lemma_step_modulus(0x1bf850faaint, s, 0x65f2ea1101cde5d1d43e7918f5103d8a297707e6dd3254c94f7f370894bb16dint, 0x28999330c996f90bb7adf0f08e4353498c23d20910cba8244cc7dae160df613int, 0x44bb027, 1);
    let s = lemma_step_modulus(0x1bf850faaint, s, 0x70c4bc6dc38eb49b33e1308d4ebe2f7e18e0d063dc6d4cb24a103b1236c5659int, 0x31acbc111de1b6d61138f25c36fb1d98ddf85d95e8dd7406356b7b2fe242f96int, 0x13c751b90int, 1);
    let s = lemma_step_modulus(0x1bf850faaint, s, 0x37c302c16ec6520ba821360859aa308d411478b4789398183a9f3c78194234eint, 0xc255fbc504f9145503f5428f6fb6a2c5e8bed82ad7fc183a00c757a13fb12cint, 0, 0);
    let s = lemma_step_modulus(0x1bf850faaint, s, 0xeda23e66f4d63c48961448603e438eb0f3b377b307bf0c42efd9a714cf42208int, 0xdc95ce5daad892c27bd3c86a6df3dd5c2f4f4b27af96d4b90d90084f99bfb50int, 0x17831acdaint, 1);
    let s = lemma_step_modulus(0x1bf850faaint, s, 0xa2a6690849e14bd92dbaf7c00a1cb6070ec6fe48202e83edb91bd5812ace20eint, 0x6757091adf58c10cbf2718a6db1474e5c9cf310945ebdeb127d37f69f02ea22int, 0xce4dacf1int, 1);
    let s = lemma_step_modulus(0x1bf850faaint, s, 0x7603b6320c327617ce389b25cb3ab7c4eff0bc64eb817a092a14d7baa4ed307int, 0x36676c03ea16012d3adfc3e4180f0d7f7e36aa4f4f62dda4c37a97d6ba80773int, 0xca70b093int, 1);
    let s = lemma_step_modulus(0x1bf850faaint, s, 0xf5220c9537901840529962538b29adf8b60b3372da081f39cf701b71ee42e6dint, 0xeaba309cf49ae4e0cb4105177c79fccfa4b5a4942db60f45f69b9c7ae14e97fint, 0xee370128int, 1);
    let s = lemma_step_modulus(0x1bf850faaint, s, 0xe79afc5558717867341c2fa2dbf6e6a45fc42d070c03c3346fde7543a376214int, 0xd1891136950352625b28e813c8f8c894a43f03a09b4b3fd05eaf69d7f7512afint, 0, 0);
    let s = lemma_step_modulus(0x1bf850faaint, s, 0xe831d9f3a3fe1cd3f345327ce75c7de140894132d4139008d5ed92816e7c88dint, 0xd29a64bec2104f6cbc682dbdfbbdb736b63e3f8c642389303ede76f368ff8efint, 0x1335ee05eint, 1);
    let s = lemma_step_modulus(0x1bf850faaint, s, 0x51985276d60f62372fadc378848f8a491d3e67414ea2fdebef532a1ae569ab6int, 0x1a01bed13b2446b771cc329694460d8d7744f7b6091b90ef13cbbe272537563int, 0x3d3fe6bf, 1);
    let s = lemma_step_modulus(0x1bf850faaint, s, 0xd633fa57cca0ff07929f73e7382560feeb1a4ca0101fd6f34034af0dbe062afint, 0xb33af1187de84c4d71401e87aff4bc3b7bcb042a3801065794289bc7009f949int, 0x7f014133, 1);
    assert(s.0 == 0x80000000000000000000000000000000a6f7nat);
}

/// The first 160 bits of the exponent of the same power.
proof fn lemma_power_modulus_10_part_10()
    ensures
        pow_mod(0x1bf850faaint, 0x80000000000000000000000000000000a6f7cef5nat, 0x1000000000000000000000000000000014def9dea2f79cd65812631a5cf5d3edint) == 0x8b82ca02a1a9a13825e827946e66d1879bc77930efcfee0e4f73545bbf50de0int,
{
    lemma_power_modulus_10_part_9();
    let s = (0x80000000000000000000000000000000a6f7nat, 0xaba91e3a1ff0ec9ee735bf3dc9a44e0240a5c505fc6955bccd52cee36e056c1int);
    let s = lemma_step_modulus(0x1bf850faaint, s, 0xaba91e3a1ff0ec9ee735bf3dc9a44e0240a5c505fc6955bccd52cee36e056c1int, 0x731b5e1a92fbb4e3a74bc4af68c8c46c26603eb6ac31fe5269d6f7b0a6f50a1int, 0xf63a23d6int, 1);
    let s = lemma_step_modulus(0x1bf850faaint, s, 0xa8ad5f119f9a1e683f8c595cb168357f51feb2edbfe82c6bf7660d1246f9beaint, 0x6f240230c29a13e0e4d8508b23109c3efeea727a2673137bbcee0115d5c1bb3int, 0x5cfe3d22, 1);
    let s = lemma_step_modulus(0x1bf850faaint, s, 0xbe52187a170273a685920b775f01b178e6f8893769905c8de3edf484106ca68int, 0x8d7df6a8eab57fc7ab093f2529b20cc5a4f467068e940622c1e9558f1426f9bint, 0, 0);
    let s = lemma_step_modulus(0x1bf850faaint, s, 0x6443aa1b1f6765fac2033e977b69c0e3f3a20595364b5639e4ddfd74d1336c1int, 0x2744eec7abc340603feed7a04aea56647577bc9d3fa20802e9c4f32350b324fint, 0, 0);
    let s = lemma_step_modulus(0x1bf850faaint, s, 0x8e4e10177d166f2fc5f92763c2e0b25c6e2abe49c2a64e5f7baa08a66ec4d5eint, 0x4f1ab1a7de180ecf45c9e967588360f67a39b3427d6bcc50f630a11537ab593int, 0x1694d1c0aint, 1);
    let s = lemma_step_modulus(0x1bf850faaint, s, 0x8e1359316fbe7a1d06cd92666681ed8b150a6fb97e12d40d4318040e1b23020int, 0x4ed9786934614efcbc74ba6388a4a529533989c4c88abab84503ca9e9015be7int, 0x1ef556b3, 1);
    let s = lemma_step_modulus(0x1bf850faaint, s, 0x1fa586cc794bba7a5813e735524bb3a8d167f2ae71a1f1c0105144a93cd1adbint, 0x3e981ac8fef6514d46c4f869d3728e9bc3f190e6b7e45dfb19ec5411f3e85fint, 0x4e7f66b2, 1);
    let s = lemma_step_modulus(0x1bf850faaint, s, 0x7ba741e7476f5e75a11df49b9e89557cc64e0008da83a5770b3bbb84ee598f2int, 0x3bba269b4b5b7b4ad32e2914f3e234b416007e30604d5d8d7f8ce29a4722c74int, 0, 0);
    let s = lemma_step_modulus(0x1bf850faaint, s, 0x3e588a58bc2e6490a91352d1fb667d610289edddba21d486f1226e0e0f98160int, 0xf2f01a262eba23f23fedf407c8849045c919a85fc8b4d93b23f22034cf86d3int, 0x11c5ec8abint, 1);
    let s = lemma_step_modulus(0x1bf850faaint, s, 0x8aba198fcfee668adf1ed10fa762e60f24535c7fa630924c1480661a3ebd9ebint, 0x4b2d2ad833b494613f9a88bd5c962272789c42bba91fb206a660de8b3352441int, 0x19339568, 1);
    let s = lemma_step_modulus(0x1bf850faaint, s, 0x1c5ae5d9957967e510b41ef32f8be13cc2fbe68f0a8f4ccf0f0fba38427cbb0int, 0x324028e040ea6711bafa4278c4529aaacdbd1e0c311d2986b26796a62452e7int, 0x15f225847int, 1);
    let s = lemma_step_modulus(0x1bf850faaint, s, 0x559e2fd6671fcf79678688e336aea67e30ef18a4a909fb7405040417b630cd7int, 0x1ca26d837612d878f98330dbeed2a7d34d7bf307be61bacb439b0107654532fint, 0x10acf06aeint, 1);
    let s = lemma_step_modulus(0x1bf850faaint, s, 0x36018d06507a75b1e1a81f62862d2e8aae2141e277aebe1e4cd3f24677a8436int, 0xb64a78111b03f6abb46eb9b26845821daea491ab317af086a5629ace30d9abint, 0, 0);
    let s = lemma_step_modulus(0x1bf850faaint, s, 0x5a9f238052480f35e42b0e9c9a2c88da393e3f9d2e2c0b79d0b939ad0774715int, 0x201447e3582d3706e009e411495f8bf77b315e98dfcc989d1788ae2bd5217a1int, 0x1100cc344int, 1);
    let s = lemma_step_modulus(0x1bf850faaint, s, 0x9eb811498d12347d33ca6e2b86672e9f35999c6d5348ab02be0a34ccf51fc44int, 0x6267b9afa5081cd42cfff261dbf88ea4b0cb7aafd089d289d1f54b20af6509eint, 0, 0);
    let s = lemma_step_modulus(0x1bf850faaint, s, 0xccabdaa102b4c1dc998fa57aa6b5099827db268770543d1ca5f9bfa79ed15caint, 0xa3a257ce6a205052d300f54cfb7ad39000fe05073c5d2fd2be5c7d87755e202int, 0x66d4d454, 1);
    assert(s.0 == 0x80000000000000000000000000000000a6f7cef5nat);
}

/// The first 176 bits of the exponent of the same power.
proof fn lemma_power_modulus_10_part_11()
    ensures
        pow_mod(0x1bf850faaint, 0x80000000000000000000000000000000a6f7cef517bcnat, 0x1000000000000000000000000000000014def9dea2f79cd65812631a5cf5d3edint) == 0x8c567623197c3297db253b0eb140a73c832c1cadc6785abe3530bd63a290a53int,
{
    lemma_power_modulus_10_part_10();
    let s = (0x80000000000000000000000000000000a6f7cef5nat, 0x8b82ca02a1a9a13825e827946e66d1879bc77930efcfee0e4f73545bbf50de0int);
    let s = lemma_step_modulus(0x1bf850faaint, s, 0x8b82ca02a1a9a13825e827946e66d1879bc77930efcfee0e4f73545bbf50de0int, 0x4c074a30a5a28c81555a88a53a125ecd3bcb800566f171f97a4a850e5325e22int, 0, 0);
    let s = lemma_step_modulus(0x1bf850faaint, s, 0x4b5d57bdb7c76367191c654c26a9459ff0196eaaa1f7efc83b7f4fcdbf5886int, 0x162fd3720798da9f078666b1af8b2469dc88f71cf613ef6c7bc0fcf51bebbint, 0, 0);
    let s = lemma_step_modulus(0x1bf850faaint, s, 0x4bcfdf38efbf860b145d740565f2bd51eec6c5eeac3cbe58c4afd37c6b7b205int, 0x167375961d322e9eb3b2cf027e39bf575aacb4d10658f71d2fcc84061f63b93int, 0, 0);
    let s = lemma_step_modulus(0x1bf850faaint, s, 0xe6d4aeca7d18c881b3e86b3af4d91d830293e30a759fc861baa72ff3f32a402int, 0xd022dac5cf7f9b8c7ee58d144536a59e693f7c230eab1d7dc5eb9b8aaea44e0int, 0x15a9bf3fcint, 1);
    let s = lemma_step_modulus(0x1bf850faaint, s, 0xc9be1b46add105bb91f2d8665a616fa2b0894f9de87fc1de95ddb4be611ac9cint, 0x9efc14017cc43972a924dc10dbf67d1a0fe0bc2ad04c26cd3ad75040e518850int, 0, 0);
    let s = lemma_step_modulus(0x1bf850faaint, s, 0x16496320c2c1048f8ca36a53437d492281eda367acbb6d5c91c591607b4dd00int, 0x1f0b213508a99afd3fb9293f1db8979725a2fad0e7171ebf05b421a57be37aint, 0x1220c477bint, 1);
    let s = lemma_step_modulus(0x1bf850faaint, s, 0x75bcb556b32ed23552d8c9a7749ce891a5e2811948efaae4d65688d9364116dint, 0x362608dc1793afa6922afc3c3ef9716263dfe5b835230e1f56560c249c5d5a7int, 0x149b59eccint, 1);
    let s = lemma_step_modulus(0x1bf850faaint, s, 0x3ed1bda07e13dfbef1de8eab159c8d183b96bb1ea1dd00d24a82580bbfff9f0int, 0xf6a43b0e995db9b023dec1bb6a945017472bd1850fc9bd5f98f08aa4ea496cint, 0x5f3a054e, 1);
    let s = lemma_step_modulus(0x1bf850faaint, s, 0xc81e928d0b33dd2b79503e2e446542e8969c81833ff19fb9d9beddf6fc23372int, 0x9c6fc8a30e74d83843a287bda1dad7686bc2afdce55c7df9b79ae871cb2d0b6int, 0x4c5d8b31, 1);
    let s = lemma_step_modulus(0x1bf850faaint, s, 0xd046fbc563dfc9cb92cbee40164d2ebb5b7577409ed7fe545fda2875c5e711fint, 0xa9736ccf69daf058dcf8498ee59cc077d718bf5fdad8292ad0622ce4461491fint, 0, 0);
    let s = lemma_step_modulus(0x1bf850faaint, s, 0x30ce37007b2fbe74c875e9e56475843151d6e83c36f148656b181fdf0c0230eint, 0x94dfabcbec95d310e3bed88d28ec8c15083166234f66d9b391f591089ef7adint, 0x130c57ca8int, 1);
    let s = lemma_step_modulus(0x1bf850faaint, s, 0x6fb17eee9233205f1f00f40d4017aba81c88c611ca2397e48146c92d3bc5066int, 0x30bb6723a79e3703bed7e179f7455729fe7d8d949576f57be9362d619cc0b4dint, 0x1606ca4aeint, 1);
    let s = lemma_step_modulus(0x1bf850faaint, s, 0x5521a5746bef1a7b99354e83d886c3a2cce1275fd9e7ab72d364b6d20b86058int, 0x1c4f5c4b629fe34f1deff8d922e465389375b405f120bfb34a6954d007d9f1eint, 0xd1e91b53int, 1);
    let s = lemma_step_modulus(0x1bf850faaint, s, 0x7fc662f2963a80ae69e29cb103c4d7c1c327f7e193c61f5eaed6e167333b42dint, 0x3fc66fe9e68d0f11442410fea7c35322aaad0fe9162cf0e7aba3780ebb289d0int, 0x19ab2f1dcint, 1);
    let s = lemma_step_modulus(0x1bf850faaint, s, 0x2f03867cb181d07bf6eae9d5c55fb73eeab40f0cce3590b3bd2e98a365d596eint, 0x8a24b6e36c09a28beaa8e124c03749cf7337a6abe4ed9990f1cfefa1cacde6int, 0, 0);
    let s = lemma_step_modulus(0x1bf850faaint, s, 0xb6943156c3aa4ae4978bbdb9d4bd3015f54e07f82f6f669fe5292b7db967b56int, 0x82370bf0740ab3b2dc6c9e50b640b3c5ad0e1a966bb50d26582b0aa456f60b5int, 0, 0);
    assert(s.0 == 0x80000000000000000000000000000000a6f7cef517bcnat);
}

/// The first 192 bits of the exponent of the same power.
proof fn lemma_power_modulus_10_part_12()
    ensures
        pow_mod(0x1bf850faaint, 0x80000000000000000000000000000000a6f7cef517bce6b2nat, 0x1000000000000000000000000000000014def9dea2f79cd65812631a5cf5d3edint) == 0xf550fce1f7fa402927c93c45eedf5f9d708dd1cf12945a1bea5faa73664923cint,
{
    lemma_power_modulus_10_part_11();
    let s = (0x80000000000000000000000000000000a6f7cef517bcnat, 0x8c567623197c3297db253b0eb140a73c832c1cadc6785abe3530bd63a290a53int);
    let s = lemma_step_modulus(0x1bf850faaint, s, 0x8c567623197c3297db253b0eb140a73c832c1cadc6785abe3530bd63a290a53int, 0x4ceeae69f9f957168edb474ab446bd0f1b0fe1a3e0ceb71ee1da5684b8da9b8int, 0xb88a0b89int, 1);
    let s = lemma_step_modulus(0x1bf850faaint, s, 0x794b2bd99dc6246f4f8bdbc79b71c80a63d9856bb2d91b9e71cbf7961b2bc75int, 0x39782586702a9487fdce9d3037c66112b4da098ac0b5f266159fa1b3f169030int, 0x497ab6d, 1);
    let s = lemma_step_modulus(0x1bf850faaint, s, 0x1c0863808ff50a1d60458f6710b76bc388a8ce7bf206ba6255908ee2089ac11int, 0x311d60a7e33496edab5bd66c2c0934615ff1690c371556230b77724fa96e90int, 0x13e2e3456int, 1);
    let s = lemma_step_modulus(0x1bf850faaint, s, 0x42f0b96572ab55f253cc7c74215386122f38c271e5fa968748bff410ed962cint, 0x118101f4739b21816a59a920a7607c97b4cc3e38577d335befd401e3e97f5int, 0, 0);
    let s = lemma_step_modulus(0x1bf850faaint, s, 0xcebc43afbfba455bb39b3cff463bdc0afcb2d15de318d42e8b98f75d4e4fabfint, 0xa6f387625496d838a44df096ee2fb415cb114b8b911c5064a9ddf1ce2f41667int, 0, 0);
    let s = lemma_step_modulus(0x1bf850faaint, s, 0x47996fa06f9b305cc9a8bc8c8db1dbf40a77d9330da58ba2a953cc832cef826int, 0x140677e19c5a01a78d598127cd670c42945edb1b865e6d7d1ecfe2f39488843int, 0x63e739f8, 1);
    let s = lemma_step_modulus(0x1bf850faaint, s, 0x7d27f833eb35d785c62636097b37d0f45e7c3a3209e661391e00cc50af504aaint, 0x3d300ea04428e1202f66a4a341c41f56affcbd5411166e7f7fbc1fc3e1a4f8fint, 0x91ea8c8cint, 1);
    let s = lemma_step_modulus(0x1bf850faaint, s, 0xa539c4341a999811153a290e76e154bb6d5d50ab98e0c9f76fcf35a92a13b0eint, 0x6aa383f41fdda9c1befbeb4f333db5af084cfda996d42d5362deca025ac469bint, 0, 0);
    let s = lemma_step_modulus(0x1bf850faaint, s, 0x3008f208b777e00de7e122a2b80a7389a4d441c3270c8d8f7f9437228355645int, 0x9035b134a2ce6add667d0c9454703783fa7f0fe3612e33a36895dfee31e476int, 0x1625b684cint, 1);
    let s = lemma_step_modulus(0x1bf850faaint, s, 0x7ea03b3331b17f583484a9899057daef6352c2295d90c9a766fc0560ea0ed12int, 0x3ea21e9072997a5ea9050fe28477e985e0e620b3f143b6c38d9ca9415c83eefint, 0, 0);
    let s = lemma_step_modulus(0x1bf850faaint, s, 0xaf007f28b582b7015a35be2a2545eada9db302b0f8fce61ef8c0d9ad50e1501int, 0x77a1add9e75220c4c4741b716c3161b4b2040d4d575d1d6ec7aaf93e1660bdbint, 0x6a7cd45, 1);
    let s = lemma_step_modulus(0x1bf850faaint, s, 0xdd47f926d54fd4f4e093032802243e1992eb9257ed2124132bf281f77c757f3int, 0xbf4558693252b8d03d47ebd419aa4389a4a5b0799e00db8bd26bc68269d2b4bint, 0x111420b8aint, 1);
    let s = lemma_step_modulus(0x1bf850faaint, s, 0xb58fac2db8233292a658347cc7d7bcfac0a02ced99f5eb04740684093b1adc2int, 0x80c47a1a7542f46f6bd60561c4be59358aeedf48bb549c5f2d20328c9a729e6int, 0, 0);
    let s = lemma_step_modulus(0x1bf850faaint, s, 0x3e701242e8b65c76ce8b02d537fb6930d1e0324604c183252573b814fcb6b16int, 0xf3a79e864916e90ea937acebe7173214a672e9f5748ee355c0b6d92d67f446int, 0, 0);
    let s = lemma_step_modulus(0x1bf850faaint, s, 0x5aa4be1d9691b586cf8a057b6c682a297ea557f1ed0bdbd6f74508ef1e8f16int, 0x20183fb0f0f74d3f1dad44f6d269573a27e1b8fabc6a68c7c1356f2460524int, 0xdd12b9d2int, 1);
    let s = lemma_step_modulus(0x1bf850faaint, s, 0x84677b0017f00fbf29783823b63a5f1e692117a3891e1215343918ee3af9836int, 0x447ae0ac4ddbea6a7ff60e6d677477465159dc7045164ebec2dab1acd3928c8int, 0, 0);
    assert(s.0 == 0x80000000000000000000000000000000a6f7cef517bce6b2nat);
}

/// The first 208 bits of the exponent of the same power.
proof fn lemma_power_modulus_10_part_13()
    ensures
        pow_mod(0x1bf850faaint, 0x80000000000000000000000000000000a6f7cef517bce6b2c093nat, 0x1000000000000000000000000000000014def9dea2f79cd65812631a5cf5d3edint) == 0x890d34949bc10f94e305066045296196d1c8b42fb923a168e946cb7d69ab432int,
{
    lemma_power_modulus_10_part_12();
    let s = (0x80000000000000000000000000000000a6f7cef517bce6b2nat, 0xf550fce1f7fa402927c93c45eedf5f9d708dd1cf12945a1bea5faa73664923cint);
    let s = lemma_step_modulus(0x1bf850faaint, s, 0xf550fce1f7fa402927c93c45eedf5f9d708dd1cf12945a1bea5faa73664923cint, 0xeb141da78bada2e1644ab640708f1baea0656c5f4be53ef4c2e5bdeffa14f57int, 0xb8a79253int, 1);
    let s = lemma_step_modulus(0x1bf850faaint, s, 0xa80d6633de6370261fff19a20171852f3835a8eddf65c52e2b19cc3da8cb57bint, 0x6e5196d79df47905080bbf5f5287057781fe95e73ef6e1738d193adfcc46913int, 0x15f1ee874int, 1);
    let s = lemma_step_modulus(0x1bf850faaint, s, 0x76558e19242f9de1802a3c51e0c54159b7132fea9aeaa2df888edc5df75fef0int, 0x36b2fb96d8edd3c7a376792432f706e413b245273ca393ef2b4c294fa32c95fint, 0, 0);
    let s = lemma_step_modulus(0x1bf850faaint, s, 0xebb2263dbebc60d344e62f3e9a1cb13d11bbfb5895a00cb9c4b426cc58670dint, 0xd9008e2e8fc17b3ee6eb7251c2ea191f0cd668fdfb018031bc888ebc46694int, 0, 0);
    let s = lemma_step_modulus(0x1bf850faaint, s, 0x488ab062b4ba6526e5b0afca94939a83e48a87a3e90c72516282af396883a5int, 0x148e4e5a299b906a188498f01e764c8c1df6b50493fe44de665c97dbd38b3int, 0, 0);
    let s = lemma_step_modulus(0x1bf850faaint, s, 0xaea8227e989e2e0383fd1f8f74cae4877c38624286bf15b95d9a50ebe8a41a2int, 0x7728fd516245354dc6f3c60699f30a9902c53564fff7723498639977a31d4c4int, 0, 0);
    let s = lemma_step_modulus(0x1bf850faaint, s, 0x916e56aa9b4c096455241d664cf8ab607b8f8e105a238e1317318cd09682510int, 0x529e2dbbdbe0aa05702d20c191d81dc5f5122474f16a84420a2f888d8865d70int, 0, 0);
    let s = lemma_step_modulus(0x1bf850faaint, s, 0x2cfca09523caa38b0185a094566103c5dc889213d1de3c86c4ea7e662c5d050int, 0x7e7d07fcea6e2c9bd82191c72450126040156ca559ecc1d7c792eca5446ba2int, 0, 0);
    let s = lemma_step_modulus(0x1bf850faaint, s, 0xdf4321f962bf54b9ed69724b5c0ba0ad80bf0de2b696539be65552de589ee06int, 0xc2b606cb47154428d711c71407a5be07e1add2c5311ab0354630d89d8fd09d7int, 0x9462ec60int, 1);
    let s = lemma_step_modulus(0x1bf850faaint, s, 0x4bc5892335b7617456b56097ac8a9d9e3b10f9bf44ce768ceb1a46f5e7858baint, 0x166d56c6fb20d3ac2994561404d7f5b9c4b70236427b14b3634c22f15ee55f4int, 0, 0);
    let s = lemma_step_modulus(0x1bf850faaint, s, 0xc9ce96aca3d331182f33b4db3607a715b3fb2f66c550eb48bab8b99341eb840int, 0x9f160f51efc80f63073417c61472ce77b3ea1d221c2e31e477bb386ec2ff36fint, 0, 0);
    let s = lemma_step_modulus(0x1bf850faaint, s, 0x48804771080501180612fd5a66f4d8645322ca42ac518ac1b9ae6cfa858353dint, 0x14886877197ab9f976b75c3ea4ef1c5c42232978599980635a8686e17562c06int, 0x57ee136d, 1);
    let s = lemma_step_modulus(0x1bf850faaint, s, 0x29e735144407bfd3420456b07470ec0331f05ab7da6e5408dd84136cace20c5int, 0x6dbdfd1535ea733c31e18155cadc04eb739af506e6e6d8e6d70975eaf915c5int, 0, 0);
    let s = lemma_step_modulus(0x1bf850faaint, s, 0xec839c75ad1dcd4539832a78108dabe27d1486844f55b5e59f712bf2e2a5138int, 0xda82ec22773dc00bbb5dfcd0f90f8bc4339442125368ec3a0c6edd509141f45int, 0, 0);
    let s = lemma_step_modulus(0x1bf850faaint, s, 0x4f2bb70cfd16fed1f253f37b9eeb7cfb719f00a0e7d5c0defa1c18929b4aa5fint, 0x187c02710574c97ec2c5ba58984b29c6fa67c0588473f7dffe36937c1223f86int, 0x1b992670aint, 1);
    let s = lemma_step_modulus(0x1bf850faaint, s, 0x6d29d1d15eec1044ddf9ec9e97f9d74b5e04f8088120b1af28243d34c8cc89cint, 0x2e8ca3812bdcf5b16e4b2611f1ac3b4da5cd1b380df0a91d19af765ddc6c6aaint, 0x1b7ebb982int, 1);
    assert(s.0 == 0x80000000000000000000000000000000a6f7cef517bce6b2c093nat);
}

/// The first 224 bits of the exponent of the same power.
proof fn lemma_power_modulus_10_part_14()
    ensures
        pow_mod(0x1bf850faaint, 0x80000000000000000000000000000000a6f7cef517bce6b2c09318d2nat, 0x1000000000000000000000000000000014def9dea2f79cd65812631a5cf5d3edint) == 0x9099eae0f2bb3d46197283f75a04d43939b7a2107434b4b8cfa175394664195int,
{
    lemma_power_modulus_10_part_13();
    let s = (0x80000000000000000000000000000000a6f7cef517bce6b2c093nat, 0x890d34949bc10f94e305066045296196d1c8b42fb923a168e946cb7d69ab432int);
    let s = lemma_step_modulus(0x1bf850faaint, s, 0x890d34949bc10f94e305066045296196d1c8b42fb923a168e946cb7d69ab432int, 0x495f22f5709929d3d46c4a2d028cf88dcc6bc2b0aff411a1a3b3ca397470dadint, 0, 0);
    let s = lemma_step_modulus(0x1bf850faaint, s, 0x6ae8255afb0fee93ccc14a186af98825fee0f86a61680c3aa843e9e0360199bint, 0x2ca511731243ab5ae9d5e7a20357dd1c1aa973b98e26219eaf7164c1c72e3e0int, 0, 0);
    let s = lemma_step_modulus(0x1bf850faaint, s, 0xf68907eb00bea47a0ead5160786ee3a77d396ac45d702e0c42e6b7f3b410d79int, 0xed6ba4911f33e1eb69da00c37c37182c5dc3991384ff24296b5555d41455ca9int, 0, 0);
    let s = lemma_step_modulus(0x1bf850faaint, s, 0xd7923fe07598aef8762667686acc1352040850b962ceba184e83d19bd46fbcint, 0xb586fad7f17cd6bc1130ad745b390e65c94b55e1100f148e036876fdbeb26int, 0xa2df1f46int, 1);
    let s = lemma_step_modulus(0x1bf850faaint, s, 0xee7add58825f34357449fbea082d6bac5f4f2889ba95288bb79b39e0685d046int, 0xde28ae884a2737836b296ae10680b7ac1ca584cf118ca47aae4b198892d6276int, 0x945107baint, 1);
    let s = lemma_step_modulus(0x1bf850faaint, s, 0x30b8d424afdb335793e3d505d6546202f3bbd9af1062b9fed3ab9baa8dc578aint, 0x945d4ff667bc6dfa0d6f0d9f7fdda9d11cb615911afdd12be68a832ae6b304int, 0, 0);
    let s = lemma_step_modulus(0x1bf850faaint, s, 0xa19c04da03d9cf64989023210533903c834ea5833ab763f90228fc2132b0fb0int, 0x66059d3022a4321aa7fe6c204b7fea18d2980d6ee1cea650e49170954ced505int, 0, 0);
    let s = lemma_step_modulus(0x1bf850faaint, s, 0x983f601123ca8aca7ee38842cd654644c33e831f7248b012b2dbdc6bf3ec45fint, 0x5a8b51c4c6fcfe7e7457f60e96b4f5841e32eb05d5aadb10b1a0c2e0125a9a1int, 0, 0);
    let s = lemma_step_modulus(0x1bf850faaint, s, 0xd689d3a2fd599ccf03c30df94aaaeac4e1bc3f1e48c697121fa707928e2de34int, 0xb3cab808b2fb117b487e17a59efb6743085d59b8d9d6661831a70cf811ceb7dint, 0x23c9c0d3, 1);
    let s = lemma_step_modulus(0x1bf850faaint, s, 0x58de40a001c38e9b6a1334daec2772848273e24ab036740b85b5f7b1a419b6fint, 0x1ed98d622709e61a2a3c41742784c293a30a51aaeda89a46711479cae610970int, 0x73e24fb7, 1);
    let s = lemma_step_modulus(0x1bf850faaint, s, 0x451c216eb0e2037284c5b2afe235a078ab8512643dd13d9996bccc13661ea9fint, 0x12a82d1cffee40c33df5a67e852f70ccc4aeebf893a26a595d7e6d4a3f63618int, 0, 0);
    let s = lemma_step_modulus(0x1bf850faaint, s, 0x3e5e1cf790c0d38d7ef88a146ea44d715799f4fd12e6cff5bdc7daa99073289int, 0xf31b8a13332cb26b9a24f75e0505f760f556d571949d400bd0cd2b7c9c2146int, 0x907f8aabint, 1);
    let s = lemma_step_modulus(0x1bf850faaint, s, 0xd2de6243a5c2bb1f650a9ae1f3718c3d0e6fb8ff533d600082e7321ea1bd4afint, 0xadb19a658efed58552bf39a0f20644dc00ce3467a26e0a063e4a23bbe36f002int, 0, 0);
    let s = lemma_step_modulus(0x1bf850faaint, s, 0xa2411083b2c901f6bd55b1f27bfc8b0a41cbc9d5bb85485c8c994d5af0477c7int, 0x66d669701237eaa8ddbf997af2c55b33417d2d3f94737f3b716cd294d5bacb3int, 0, 0);
    let s = lemma_step_modulus(0x1bf850faaint, s, 0x45c5ec9b79bb3b18ac9d242ffc680bb64568a8d4d0856076edacd023fbd31faint, 0x13044a91d1974ee21897f44b07c9f5a725f6a68bd6f636c72c096ed7c3a2014int, 0x386b4a71, 1);
    let s = lemma_step_modulus(0x1bf850faaint, s, 0x4b97630a826535273bc31fdc6ef395ed1d37e12610a39d562f9c59e966716a3int, 0x16520d8e251e41d26abc462329a13151d3ee21f30fb55e482f304be2579f484int, 0, 0);
    assert(s.0 == 0x80000000000000000000000000000000a6f7cef517bce6b2c09318d2nat);
}

/// The first 240 bits of the exponent of the same power.
proof fn lemma_power_modulus_10_part_15()
    ensures
        pow_mod(0x1bf850faaint, 0x80000000000000000000000000000000a6f7cef517bce6b2c09318d2e7aenat, 0x1000000000000000000000000000000014def9dea2f79cd65812631a5cf5d3edint) == 0xbf43383ba734e5cd8a21f231eb04e8d1c6de9ec5060d8bd9aa03e112a6c0885int,
{
    lemma_power_modulus_10_part_14();
    let s = (0x80000000000000000000000000000000a6f7cef517bce6b2c09318d2nat, 0x9099eae0f2bb3d46197283f75a04d43939b7a2107434b4b8cfa175394664195int);
    let s = lemma_step_modulus(0x1bf850faaint, s, 0x9099eae0f2bb3d46197283f75a04d43939b7a2107434b4b8cfa175394664195int, 0x51ad84c7a974ca2614412954ffc65412f0d0add8006d439007d15bcf9cc9e31int, 0xb691b443int, 1);
    let s = lemma_step_modulus(0x1bf850faaint, s, 0x7fba430b122917833eed8943fd6e60dcb0f652096e5d434ef7444da66eb6a11int, 0x3fba560a79a9f5067647a57ba98f92fa9ffbabb8d28f49fec7048d462c7c683int, 0x170bffd3eint, 1);
    let s = lemma_step_modulus(0x1bf850faaint, s, 0x70c3a14dce0b1f22aa372f684aef4f5b61f0607bbdcb35064be667ab9d5925eint, 0x31abc2a3367494ff596fd518c3fc1bf5a0c611996720f2484e993b50cc36109int, 0xcff898, 1);
    let s = lemma_step_modulus(0x1bf850faaint, s, 0x5db5d30f6927322144b19b36ad7e14c2bf20af4e6699a90ea56aa386a5cb77eint, 0x224d9c7d5433941d2960122da258e45d2654e8492307f341c051e808c28df09int, 0, 0);
    let s = lemma_step_modulus(0x1bf850faaint, s, 0xf466f145da91f6ae291f713741e639fb96535582efbf2aa1bcd62f29ccd7bafint, 0xe95465524fb50322f0ec8388e8cbc3ce51b85bff572fb312bd87283df1afb85int, 0, 0);
    let s = lemma_step_modulus(0x1bf850faaint, s, 0x72515ce25509294656cfad2de0ffbe96d09b670921b8869adfdffd74e752880int, 0x330c90957ca96dc799ea69fba1d2850a804b70916078191b747e614f94ca78bint, 0x1ab939a3eint, 1);
    let s = lemma_step_modulus(0x1bf850faaint, s, 0x620cee5b8b44e8103083861109bd84f930e07afb6725d8cb324a81c726fad64int, 0x258de7254d2427d294e83b3e577cf4369609cba44bab4d27bf9e549c9fd7455int, 0x2bf58252, 1);
    let s = lemma_step_modulus(0x1bf850faaint, s, 0x92a5ce3710a6a1ffd54403326c5b31be76cf9cae752bcee734f9bd2caa4362cint, 0x54018a9a48163238f871152f33eb16dcd2d13175c2599b8e40d026581f042deint, 0x2a2587b0, 1);
    let s = lemma_step_modulus(0x1bf850faaint, s, 0xe17e7c2370b61e0d395fe8d436429f1e67ca67a69dc77454082669231c2cab4int, 0xc69f94b4bb356e314467f4bb22965e188a081c33fd7f0d602cb06ce2349ec44int, 0x11d926692int, 1);
    let s = lemma_step_modulus(0x1bf850faaint, s, 0xb8dfea900aeb556aee8e42800913b6cb5ae5673280f71715122e9716015666eint, 0x8582a5098d90f5cb0896eadaa32e4d33572ebe2f44018fed46b014b6a8dad14int, 0, 0);
    let s = lemma_step_modulus(0x1bf850faaint, s, 0xce596bd9cd702aecd9bcad6153a7618c1a016753357e4d0e44d284238131fc0int, 0xa65408ceb181281cb802a5aaf6441ba5dcb41e953ed33b1cc9d7a68cdf2696bint, 0x3c0359f9, 1);
    let s = lemma_step_modulus(0x1bf850faaint, s, 0x78b6bda490f9e79c30de6e970d9ac4c84522202ac7c1532bd7e5d16de80b485int, 0x38ebd43c7a64d452d22d7cbdfe2db8c54d5438d6ee58af503fa723fd739fdceint, 0, 0);
    let s = lemma_step_modulus(0x1bf850faaint, s, 0xa117096ddeef11653b3b54be03d4c510cab639c88b191ce42987c86b5448b63int, 0x655dfbeee47fabaadda2b50be65fefd5b2052c50dd29948312942a4c6c9dc7bint, 0xb718c6b4int, 1);
    let s = lemma_step_modulus(0x1bf850faaint, s, 0x73595383241ba2023e1bebffc2672c430c5b991c5ebb949c3f7fa71fc2e65c0int, 0x33f96032fede3b5c8dc9508fc0910834b108937ab012364596835717927a6dcint, 0x700f7e19, 1);
    let s = lemma_step_modulus(0x1bf850faaint, s, 0xecfdb7a605d908dc5cbcb9875e31650c4d9ec33b779c04e99a21d67800f9fa3int, 0xdb64c60e9cae7f59aecfffcf02be7ed534807b5cd9742834960eb1e219b2d81int, 0x1219f1d7cint, 1);
    let s = lemma_step_modulus(0x1bf850faaint, s, 0x5b28375a7476900ed4a8847f8ff6a92edad5ca85b87bc0d999510c533412d4cint, 0x20759daba708ad789a1196209717c6708237e2d8e4ccd0507281decb3e0b2d7int, 0, 0);
    assert(s.0 == 0x80000000000000000000000000000000a6f7cef517bce6b2c09318d2e7aenat);
}

/// The product of 86649 and 86650, to the power of half the modulus minus one, is minus one.
proof fn lemma_power_modulus_10()
    ensures
        pow_mod(0x1bf850faaint, 0x80000000000000000000000000000000a6f7cef517bce6b2c09318d2e7ae9f6nat, 0x1000000000000000000000000000000014def9dea2f79cd65812631a5cf5d3edint) == 0x1000000000000000000000000000000014def9dea2f79cd65812631a5cf5d3ecint,
{
    lemma_power_modulus_10_part_15();
    let s = (0x80000000000000000000000000000000a6f7cef517bce6b2c09318d2e7aenat, 0xbf43383ba734e5cd8a21f231eb04e8d1c6de9ec5060d8bd9aa03e112a6c0885int);
    let s = lemma_step_modulus(0x1bf850faaint, s, 0xbf43383ba734e5cd8a21f231eb04e8d1c6de9ec5060d8bd9aa03e112a6c0885int, 0x8ee55f8f7f149ba6a1d6dd181c6f97bd6962f55483a894819f3dfdf6d028132int, 0x15928e720int, 1);
    let s = lemma_step_modulus(0x1bf850faaint, s, 0x5d58c4d3834634668bf7c987a7c9102a2753d66b4e09f66e2a75004a9f8cfd6int, 0x22099dc9961fd21bb17a9706ea475437931b085d355f06e03a76f803b8db6ceint, 0, 0);
    let s = lemma_step_modulus(0x1bf850faaint, s, 0xd0619f97383ddae6e2acf0a7bce13cb23a152bfdc965732911fa0e0f857c02eint, 0xa99ec8900f7a53c74e8ef6c83d6121d00f3191e4b48d7fa747f328f5329b959int, 0, 0);
    let s = lemma_step_modulus(0x1bf850faaint, s, 0x9c917ed9329689074c9710abf7bc315c548fb27bfe05d8117302f1d8ff715dfint, 0x5fc1a549a68d4b9b1bb38342bd111e78dfb1d0a44e388f430097ba01b873d42int, 0x3233c22f, 1);
    let s = lemma_step_modulus(0x1bf850faaint, s, 0x7d3fa14f882fb2fb84b9bc4a6817f9c011cd6557df0ff5995f2ffd4aa70b863int, 0x3d47335875c8be450c6c40875241427e99b68fb0f4bb1a7610c9334f0273fe1int, 0xffc72683int, 1);
    let s = lemma_step_modulus(0x1bf850faaint, s, 0xf3b891d3c94d33fd0a9009bd8a94944820ad6db1430d71125b01fa4d4bce111int, 0xe807e9ea03ab88ec063f4d8e156362c86c99e78ffb2e00debb56e89abb09d47int, 0x1be0d82ddint, 1);
    let s = lemma_step_modulus(0x1bf850faaint, s, 0x2332df0659dcaf7b6b0186dd5c2dc022942c29ba2238ce16eede301b4936e23int, 0x4d6f3179d5982e71b14a5f0c7856f924fb9d444f0971573ff984e1757837dcint, 0x6b68c14c, 1);
    let s = lemma_step_modulus(0x1bf850faaint, s, 0xdda9989f931a22274e4a880da77d5c93c56d8ff99218daa0b74fdbc6e197ae6int, 0xbfee41de61a939a00c9e2cff0fcec36d5f3050c5fb342ea0913c79b28f43555int, 0x4a77b419, 1);
    let s = lemma_step_modulus(0x1bf850faaint, s, 0xb7d73e7433824e518026e2598c4544bb804aa520d65bb565d16642195abce39int, 0x84057044180f4e89e8807a634da08f6d1fbd721d4155172316bbcf5180aed2eint, 0, 0);
    let s = lemma_step_modulus(0x1bf850faaint, s, 0xbcff91e7a20f28cb174903aa4fcca9757ea83df01e5619661f461f7b7a54b1bint, 0x8b885d7034a3554898f48043063059f60b6afab789c865147c9f699014ec365int, 0x1b08afdf, 1);
    let s = lemma_step_modulus(0x1bf850faaint, s, 0x92b2a37cb8ab27a2dc70db217581295f57e9c77f2565c710ec26159c7034dfdint, 0x54103f22047c172641698cc83f875f65220cee60a4df1cf44f1bcc645dcb4e0int, 0xde521c3eint, 1);
    let s = lemma_step_modulus(0x1bf850faaint, s, 0x94a7310e07981e77d3d6d60abc1c27a0ef0565342ce83febe8775dfebbe07d4int, 0x5651bde9427c2b5f5dcdaa09d4731c4c70372e5c598569a79cddc07de2c15b4int, 0, 0);
    assert(s.0 == 0x80000000000000000000000000000000a6f7cef517bce6b2c09318d2e7ae9f6nat);
}

/// The product of 86649 and 86650, to the power of half the modulus minus
/// one, is minus one: the product is no square.
pub proof fn lemma_euler_witness()
    ensures
        pow_mod(0x1bf850faaint, 0x80000000000000000000000000000000a6f7cef517bce6b2c09318d2e7ae9f6nat, 0x1000000000000000000000000000000014def9dea2f79cd65812631a5cf5d3edint) == 0x1000000000000000000000000000000014def9dea2f79cd65812631a5cf5d3edint - 1,
{
    lemma_power_modulus_10();
}

} // verus!
