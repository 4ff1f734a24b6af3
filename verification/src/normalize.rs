//! Unicode normalization (UAX #15) over the characters this table knows: the canonical
//! decompositions of the precomposed Latin letters of U+00C0 to U+024F and U+1E00 to
//! U+1EFF (a base and one combining mark, the base decomposed again where it has a
//! decomposition of its own) and of the combining marks that decompose (U+0340,
//! U+0341, U+0343 and U+0344, none of which composes back), the canonical combining
//! classes of the combining
//! diacritical marks (U+0300 to U+036F), and the compatibility decompositions of the
//! Latin-1 compatibility characters, the fi-style ligatures, the circled digits
//! one to nine, the fullwidth ASCII forms, the ellipsis and the trade mark sign. Any
//! other character is its own decomposition, has combining class 0 and composes with
//! nothing.
use vstd::prelude::*;
use crate::strs::{chars_of, push_char};

verus! {

/// The canonical decomposition of a character, a base letter and a mark, where the
/// table has one.
pub open spec fn canonical_pair(c: char) -> Option<(char, char)> {
    let u = c as u32;
    if u < 0x231 {
        if u < 0x158 {
            if u < 0x109 {
                if u < 0xE5 {
                    if u < 0xD1 {
                        if u < 0xC8 {
                            if u < 0xC3 {
                                if u == 0xC0 {
                                    Some(('A', '\u{300}'))
                                } else if u == 0xC1 {
                                    Some(('A', '\u{301}'))
                                } else if u == 0xC2 {
                                    Some(('A', '\u{302}'))
                                } else {
                                    None
                                }
                            } else {
                                if u < 0xC5 {
                                    if u == 0xC3 {
                                        Some(('A', '\u{303}'))
                                    } else if u == 0xC4 {
                                        Some(('A', '\u{308}'))
                                    } else {
                                        None
                                    }
                                } else {
                                    if u == 0xC5 {
                                        Some(('A', '\u{30A}'))
                                    } else if u == 0xC7 {
                                        Some(('C', '\u{327}'))
                                    } else {
                                        None
                                    }
                                }
                            }
                        } else {
                            if u < 0xCC {
                                if u < 0xCA {
                                    if u == 0xC8 {
                                        Some(('E', '\u{300}'))
                                    } else if u == 0xC9 {
                                        Some(('E', '\u{301}'))
                                    } else {
                                        None
                                    }
                                } else {
                                    if u == 0xCA {
                                        Some(('E', '\u{302}'))
                                    } else if u == 0xCB {
                                        Some(('E', '\u{308}'))
                                    } else {
                                        None
                                    }
                                }
                            } else {
                                if u < 0xCE {
                                    if u == 0xCC {
                                        Some(('I', '\u{300}'))
                                    } else if u == 0xCD {
                                        Some(('I', '\u{301}'))
                                    } else {
                                        None
                                    }
                                } else {
                                    if u == 0xCE {
                                        Some(('I', '\u{302}'))
                                    } else if u == 0xCF {
                                        Some(('I', '\u{308}'))
                                    } else {
                                        None
                                    }
                                }
                            }
                        }
                    } else {
                        if u < 0xDB {
                            if u < 0xD5 {
                                if u < 0xD3 {
                                    if u == 0xD1 {
                                        Some(('N', '\u{303}'))
                                    } else if u == 0xD2 {
                                        Some(('O', '\u{300}'))
                                    } else {
                                        None
                                    }
                                } else {
                                    if u == 0xD3 {
                                        Some(('O', '\u{301}'))
                                    } else if u == 0xD4 {
                                        Some(('O', '\u{302}'))
                                    } else {
                                        None
                                    }
                                }
                            } else {
                                if u < 0xD9 {
                                    if u == 0xD5 {
                                        Some(('O', '\u{303}'))
                                    } else if u == 0xD6 {
                                        Some(('O', '\u{308}'))
                                    } else {
                                        None
                                    }
                                } else {
                                    if u == 0xD9 {
                                        Some(('U', '\u{300}'))
                                    } else if u == 0xDA {
                                        Some(('U', '\u{301}'))
                                    } else {
                                        None
                                    }
                                }
                            }
                        } else {
                            if u < 0xE1 {
                                if u < 0xDD {
                                    if u == 0xDB {
                                        Some(('U', '\u{302}'))
                                    } else if u == 0xDC {
                                        Some(('U', '\u{308}'))
                                    } else {
                                        None
                                    }
                                } else {
                                    if u == 0xDD {
                                        Some(('Y', '\u{301}'))
                                    } else if u == 0xE0 {
                                        Some(('a', '\u{300}'))
                                    } else {
                                        None
                                    }
                                }
                            } else {
                                if u < 0xE3 {
                                    if u == 0xE1 {
                                        Some(('a', '\u{301}'))
                                    } else if u == 0xE2 {
                                        Some(('a', '\u{302}'))
                                    } else {
                                        None
                                    }
                                } else {
                                    if u == 0xE3 {
                                        Some(('a', '\u{303}'))
                                    } else if u == 0xE4 {
                                        Some(('a', '\u{308}'))
                                    } else {
                                        None
                                    }
                                }
                            }
                        }
                    }
                } else {
                    if u < 0xF6 {
                        if u < 0xED {
                            if u < 0xE9 {
                                if u == 0xE5 {
                                    Some(('a', '\u{30A}'))
                                } else if u == 0xE7 {
                                    Some(('c', '\u{327}'))
                                } else if u == 0xE8 {
                                    Some(('e', '\u{300}'))
                                } else {
                                    None
                                }
                            } else {
                                if u < 0xEB {
                                    if u == 0xE9 {
                                        Some(('e', '\u{301}'))
                                    } else if u == 0xEA {
                                        Some(('e', '\u{302}'))
                                    } else {
                                        None
                                    }
                                } else {
                                    if u == 0xEB {
                                        Some(('e', '\u{308}'))
                                    } else if u == 0xEC {
                                        Some(('i', '\u{300}'))
                                    } else {
                                        None
                                    }
                                }
                            }
                        } else {
                            if u < 0xF2 {
                                if u < 0xEF {
                                    if u == 0xED {
                                        Some(('i', '\u{301}'))
                                    } else if u == 0xEE {
                                        Some(('i', '\u{302}'))
                                    } else {
                                        None
                                    }
                                } else {
                                    if u == 0xEF {
                                        Some(('i', '\u{308}'))
                                    } else if u == 0xF1 {
                                        Some(('n', '\u{303}'))
                                    } else {
                                        None
                                    }
                                }
                            } else {
                                if u < 0xF4 {
                                    if u == 0xF2 {
                                        Some(('o', '\u{300}'))
                                    } else if u == 0xF3 {
                                        Some(('o', '\u{301}'))
                                    } else {
                                        None
                                    }
                                } else {
                                    if u == 0xF4 {
                                        Some(('o', '\u{302}'))
                                    } else if u == 0xF5 {
                                        Some(('o', '\u{303}'))
                                    } else {
                                        None
                                    }
                                }
                            }
                        }
                    } else {
                        if u < 0x101 {
                            if u < 0xFC {
                                if u < 0xFA {
                                    if u == 0xF6 {
                                        Some(('o', '\u{308}'))
                                    } else if u == 0xF9 {
                                        Some(('u', '\u{300}'))
                                    } else {
                                        None
                                    }
                                } else {
                                    if u == 0xFA {
                                        Some(('u', '\u{301}'))
                                    } else if u == 0xFB {
                                        Some(('u', '\u{302}'))
                                    } else {
                                        None
                                    }
                                }
                            } else {
                                if u < 0xFF {
                                    if u == 0xFC {
                                        Some(('u', '\u{308}'))
                                    } else if u == 0xFD {
                                        Some(('y', '\u{301}'))
                                    } else {
                                        None
                                    }
                                } else {
                                    if u == 0xFF {
                                        Some(('y', '\u{308}'))
                                    } else if u == 0x100 {
                                        Some(('A', '\u{304}'))
                                    } else {
                                        None
                                    }
                                }
                            }
                        } else {
                            if u < 0x105 {
                                if u < 0x103 {
                                    if u == 0x101 {
                                        Some(('a', '\u{304}'))
                                    } else if u == 0x102 {
                                        Some(('A', '\u{306}'))
                                    } else {
                                        None
                                    }
                                } else {
                                    if u == 0x103 {
                                        Some(('a', '\u{306}'))
                                    } else if u == 0x104 {
                                        Some(('A', '\u{328}'))
                                    } else {
                                        None
                                    }
                                }
                            } else {
                                if u < 0x107 {
                                    if u == 0x105 {
                                        Some(('a', '\u{328}'))
                                    } else if u == 0x106 {
                                        Some(('C', '\u{301}'))
                                    } else {
                                        None
                                    }
                                } else {
                                    if u == 0x107 {
                                        Some(('c', '\u{301}'))
                                    } else if u == 0x108 {
                                        Some(('C', '\u{302}'))
                                    } else {
                                        None
                                    }
                                }
                            }
                        }
                    }
                }
            } else {
                if u < 0x12C {
                    if u < 0x11A {
                        if u < 0x112 {
                            if u < 0x10C {
                                if u == 0x109 {
                                    Some(('c', '\u{302}'))
                                } else if u == 0x10A {
                                    Some(('C', '\u{307}'))
                                } else if u == 0x10B {
                                    Some(('c', '\u{307}'))
                                } else {
                                    None
                                }
                            } else {
                                if u < 0x10E {
                                    if u == 0x10C {
                                        Some(('C', '\u{30C}'))
                                    } else if u == 0x10D {
                                        Some(('c', '\u{30C}'))
                                    } else {
                                        None
                                    }
                                } else {
                                    if u == 0x10E {
                                        Some(('D', '\u{30C}'))
                                    } else if u == 0x10F {
                                        Some(('d', '\u{30C}'))
                                    } else {
                                        None
                                    }
                                }
                            }
                        } else {
                            if u < 0x116 {
                                if u < 0x114 {
                                    if u == 0x112 {
                                        Some(('E', '\u{304}'))
                                    } else if u == 0x113 {
                                        Some(('e', '\u{304}'))
                                    } else {
                                        None
                                    }
                                } else {
                                    if u == 0x114 {
                                        Some(('E', '\u{306}'))
                                    } else if u == 0x115 {
                                        Some(('e', '\u{306}'))
                                    } else {
                                        None
                                    }
                                }
                            } else {
                                if u < 0x118 {
                                    if u == 0x116 {
                                        Some(('E', '\u{307}'))
                                    } else if u == 0x117 {
                                        Some(('e', '\u{307}'))
                                    } else {
                                        None
                                    }
                                } else {
                                    if u == 0x118 {
                                        Some(('E', '\u{328}'))
                                    } else if u == 0x119 {
                                        Some(('e', '\u{328}'))
                                    } else {
                                        None
                                    }
                                }
                            }
                        }
                    } else {
                        if u < 0x122 {
                            if u < 0x11E {
                                if u < 0x11C {
                                    if u == 0x11A {
                                        Some(('E', '\u{30C}'))
                                    } else if u == 0x11B {
                                        Some(('e', '\u{30C}'))
                                    } else {
                                        None
                                    }
                                } else {
                                    if u == 0x11C {
                                        Some(('G', '\u{302}'))
                                    } else if u == 0x11D {
                                        Some(('g', '\u{302}'))
                                    } else {
                                        None
                                    }
                                }
                            } else {
                                if u < 0x120 {
                                    if u == 0x11E {
                                        Some(('G', '\u{306}'))
                                    } else if u == 0x11F {
                                        Some(('g', '\u{306}'))
                                    } else {
                                        None
                                    }
                                } else {
                                    if u == 0x120 {
                                        Some(('G', '\u{307}'))
                                    } else if u == 0x121 {
                                        Some(('g', '\u{307}'))
                                    } else {
                                        None
                                    }
                                }
                            }
                        } else {
                            if u < 0x128 {
                                if u < 0x124 {
                                    if u == 0x122 {
                                        Some(('G', '\u{327}'))
                                    } else if u == 0x123 {
                                        Some(('g', '\u{327}'))
                                    } else {
                                        None
                                    }
                                } else {
                                    if u == 0x124 {
                                        Some(('H', '\u{302}'))
                                    } else if u == 0x125 {
                                        Some(('h', '\u{302}'))
                                    } else {
                                        None
                                    }
                                }
                            } else {
                                if u < 0x12A {
                                    if u == 0x128 {
                                        Some(('I', '\u{303}'))
                                    } else if u == 0x129 {
                                        Some(('i', '\u{303}'))
                                    } else {
                                        None
                                    }
                                } else {
                                    if u == 0x12A {
                                        Some(('I', '\u{304}'))
                                    } else if u == 0x12B {
                                        Some(('i', '\u{304}'))
                                    } else {
                                        None
                                    }
                                }
                            }
                        }
                    }
                } else {
                    if u < 0x143 {
                        if u < 0x136 {
                            if u < 0x12F {
                                if u == 0x12C {
                                    Some(('I', '\u{306}'))
                                } else if u == 0x12D {
                                    Some(('i', '\u{306}'))
                                } else if u == 0x12E {
                                    Some(('I', '\u{328}'))
                                } else {
                                    None
                                }
                            } else {
                                if u < 0x134 {
                                    if u == 0x12F {
                                        Some(('i', '\u{328}'))
                                    } else if u == 0x130 {
                                        Some(('I', '\u{307}'))
                                    } else {
                                        None
                                    }
                                } else {
                                    if u == 0x134 {
                                        Some(('J', '\u{302}'))
                                    } else if u == 0x135 {
                                        Some(('j', '\u{302}'))
                                    } else {
                                        None
                                    }
                                }
                            }
                        } else {
                            if u < 0x13B {
                                if u < 0x139 {
                                    if u == 0x136 {
                                        Some(('K', '\u{327}'))
                                    } else if u == 0x137 {
                                        Some(('k', '\u{327}'))
                                    } else {
                                        None
                                    }
                                } else {
                                    if u == 0x139 {
                                        Some(('L', '\u{301}'))
                                    } else if u == 0x13A {
                                        Some(('l', '\u{301}'))
                                    } else {
                                        None
                                    }
                                }
                            } else {
                                if u < 0x13D {
                                    if u == 0x13B {
                                        Some(('L', '\u{327}'))
                                    } else if u == 0x13C {
                                        Some(('l', '\u{327}'))
                                    } else {
                                        None
                                    }
                                } else {
                                    if u == 0x13D {
                                        Some(('L', '\u{30C}'))
                                    } else if u == 0x13E {
                                        Some(('l', '\u{30C}'))
                                    } else {
                                        None
                                    }
                                }
                            }
                        }
                    } else {
                        if u < 0x14E {
                            if u < 0x147 {
                                if u < 0x145 {
                                    if u == 0x143 {
                                        Some(('N', '\u{301}'))
                                    } else if u == 0x144 {
                                        Some(('n', '\u{301}'))
                                    } else {
                                        None
                                    }
                                } else {
                                    if u == 0x145 {
                                        Some(('N', '\u{327}'))
                                    } else if u == 0x146 {
                                        Some(('n', '\u{327}'))
                                    } else {
                                        None
                                    }
                                }
                            } else {
                                if u < 0x14C {
                                    if u == 0x147 {
                                        Some(('N', '\u{30C}'))
                                    } else if u == 0x148 {
                                        Some(('n', '\u{30C}'))
                                    } else {
                                        None
                                    }
                                } else {
                                    if u == 0x14C {
                                        Some(('O', '\u{304}'))
                                    } else if u == 0x14D {
                                        Some(('o', '\u{304}'))
                                    } else {
                                        None
                                    }
                                }
                            }
                        } else {
                            if u < 0x154 {
                                if u < 0x150 {
                                    if u == 0x14E {
                                        Some(('O', '\u{306}'))
                                    } else if u == 0x14F {
                                        Some(('o', '\u{306}'))
                                    } else {
                                        None
                                    }
                                } else {
                                    if u == 0x150 {
                                        Some(('O', '\u{30B}'))
                                    } else if u == 0x151 {
                                        Some(('o', '\u{30B}'))
                                    } else {
                                        None
                                    }
                                }
                            } else {
                                if u < 0x156 {
                                    if u == 0x154 {
                                        Some(('R', '\u{301}'))
                                    } else if u == 0x155 {
                                        Some(('r', '\u{301}'))
                                    } else {
                                        None
                                    }
                                } else {
                                    if u == 0x156 {
                                        Some(('R', '\u{327}'))
                                    } else if u == 0x157 {
                                        Some(('r', '\u{327}'))
                                    } else {
                                        None
                                    }
                                }
                            }
                        }
                    }
                }
            }
        } else {
            if u < 0x1E3 {
                if u < 0x179 {
                    if u < 0x169 {
                        if u < 0x15F {
                            if u < 0x15B {
                                if u == 0x158 {
                                    Some(('R', '\u{30C}'))
                                } else if u == 0x159 {
                                    Some(('r', '\u{30C}'))
                                } else if u == 0x15A {
                                    Some(('S', '\u{301}'))
                                } else {
                                    None
                                }
                            } else {
                                if u < 0x15D {
                                    if u == 0x15B {
                                        Some(('s', '\u{301}'))
                                    } else if u == 0x15C {
                                        Some(('S', '\u{302}'))
                                    } else {
                                        None
                                    }
                                } else {
                                    if u == 0x15D {
                                        Some(('s', '\u{302}'))
                                    } else if u == 0x15E {
                                        Some(('S', '\u{327}'))
                                    } else {
                                        None
                                    }
                                }
                            }
                        } else {
                            if u < 0x163 {
                                if u < 0x161 {
                                    if u == 0x15F {
                                        Some(('s', '\u{327}'))
                                    } else if u == 0x160 {
                                        Some(('S', '\u{30C}'))
                                    } else {
                                        None
                                    }
                                } else {
                                    if u == 0x161 {
                                        Some(('s', '\u{30C}'))
                                    } else if u == 0x162 {
                                        Some(('T', '\u{327}'))
                                    } else {
                                        None
                                    }
                                }
                            } else {
                                if u < 0x165 {
                                    if u == 0x163 {
                                        Some(('t', '\u{327}'))
                                    } else if u == 0x164 {
                                        Some(('T', '\u{30C}'))
                                    } else {
                                        None
                                    }
                                } else {
                                    if u == 0x165 {
                                        Some(('t', '\u{30C}'))
                                    } else if u == 0x168 {
                                        Some(('U', '\u{303}'))
                                    } else {
                                        None
                                    }
                                }
                            }
                        }
                    } else {
                        if u < 0x171 {
                            if u < 0x16D {
                                if u < 0x16B {
                                    if u == 0x169 {
                                        Some(('u', '\u{303}'))
                                    } else if u == 0x16A {
                                        Some(('U', '\u{304}'))
                                    } else {
                                        None
                                    }
                                } else {
                                    if u == 0x16B {
                                        Some(('u', '\u{304}'))
                                    } else if u == 0x16C {
                                        Some(('U', '\u{306}'))
                                    } else {
                                        None
                                    }
                                }
                            } else {
                                if u < 0x16F {
                                    if u == 0x16D {
                                        Some(('u', '\u{306}'))
                                    } else if u == 0x16E {
                                        Some(('U', '\u{30A}'))
                                    } else {
                                        None
                                    }
                                } else {
                                    if u == 0x16F {
                                        Some(('u', '\u{30A}'))
                                    } else if u == 0x170 {
                                        Some(('U', '\u{30B}'))
                                    } else {
                                        None
                                    }
                                }
                            }
                        } else {
                            if u < 0x175 {
                                if u < 0x173 {
                                    if u == 0x171 {
                                        Some(('u', '\u{30B}'))
                                    } else if u == 0x172 {
                                        Some(('U', '\u{328}'))
                                    } else {
                                        None
                                    }
                                } else {
                                    if u == 0x173 {
                                        Some(('u', '\u{328}'))
                                    } else if u == 0x174 {
                                        Some(('W', '\u{302}'))
                                    } else {
                                        None
                                    }
                                }
                            } else {
                                if u < 0x177 {
                                    if u == 0x175 {
                                        Some(('w', '\u{302}'))
                                    } else if u == 0x176 {
                                        Some(('Y', '\u{302}'))
                                    } else {
                                        None
                                    }
                                } else {
                                    if u == 0x177 {
                                        Some(('y', '\u{302}'))
                                    } else if u == 0x178 {
                                        Some(('Y', '\u{308}'))
                                    } else {
                                        None
                                    }
                                }
                            }
                        }
                    }
                } else {
                    if u < 0x1D2 {
                        if u < 0x1A1 {
                            if u < 0x17C {
                                if u == 0x179 {
                                    Some(('Z', '\u{301}'))
                                } else if u == 0x17A {
                                    Some(('z', '\u{301}'))
                                } else if u == 0x17B {
                                    Some(('Z', '\u{307}'))
                                } else {
                                    None
                                }
                            } else {
                                if u < 0x17E {
                                    if u == 0x17C {
                                        Some(('z', '\u{307}'))
                                    } else if u == 0x17D {
                                        Some(('Z', '\u{30C}'))
                                    } else {
                                        None
                                    }
                                } else {
                                    if u == 0x17E {
                                        Some(('z', '\u{30C}'))
                                    } else if u == 0x1A0 {
                                        Some(('O', '\u{31B}'))
                                    } else {
                                        None
                                    }
                                }
                            }
                        } else {
                            if u < 0x1CE {
                                if u < 0x1B0 {
                                    if u == 0x1A1 {
                                        Some(('o', '\u{31B}'))
                                    } else if u == 0x1AF {
                                        Some(('U', '\u{31B}'))
                                    } else {
                                        None
                                    }
                                } else {
                                    if u == 0x1B0 {
                                        Some(('u', '\u{31B}'))
                                    } else if u == 0x1CD {
                                        Some(('A', '\u{30C}'))
                                    } else {
                                        None
                                    }
                                }
                            } else {
                                if u < 0x1D0 {
                                    if u == 0x1CE {
                                        Some(('a', '\u{30C}'))
                                    } else if u == 0x1CF {
                                        Some(('I', '\u{30C}'))
                                    } else {
                                        None
                                    }
                                } else {
                                    if u == 0x1D0 {
                                        Some(('i', '\u{30C}'))
                                    } else if u == 0x1D1 {
                                        Some(('O', '\u{30C}'))
                                    } else {
                                        None
                                    }
                                }
                            }
                        }
                    } else {
                        if u < 0x1DA {
                            if u < 0x1D6 {
                                if u < 0x1D4 {
                                    if u == 0x1D2 {
                                        Some(('o', '\u{30C}'))
                                    } else if u == 0x1D3 {
                                        Some(('U', '\u{30C}'))
                                    } else {
                                        None
                                    }
                                } else {
                                    if u == 0x1D4 {
                                        Some(('u', '\u{30C}'))
                                    } else if u == 0x1D5 {
                                        Some(('\u{DC}', '\u{304}'))
                                    } else {
                                        None
                                    }
                                }
                            } else {
                                if u < 0x1D8 {
                                    if u == 0x1D6 {
                                        Some(('\u{FC}', '\u{304}'))
                                    } else if u == 0x1D7 {
                                        Some(('\u{DC}', '\u{301}'))
                                    } else {
                                        None
                                    }
                                } else {
                                    if u == 0x1D8 {
                                        Some(('\u{FC}', '\u{301}'))
                                    } else if u == 0x1D9 {
                                        Some(('\u{DC}', '\u{30C}'))
                                    } else {
                                        None
                                    }
                                }
                            }
                        } else {
                            if u < 0x1DF {
                                if u < 0x1DC {
                                    if u == 0x1DA {
                                        Some(('\u{FC}', '\u{30C}'))
                                    } else if u == 0x1DB {
                                        Some(('\u{DC}', '\u{300}'))
                                    } else {
                                        None
                                    }
                                } else {
                                    if u == 0x1DC {
                                        Some(('\u{FC}', '\u{300}'))
                                    } else if u == 0x1DE {
                                        Some(('\u{C4}', '\u{304}'))
                                    } else {
                                        None
                                    }
                                }
                            } else {
                                if u < 0x1E1 {
                                    if u == 0x1DF {
                                        Some(('\u{E4}', '\u{304}'))
                                    } else if u == 0x1E0 {
                                        Some(('\u{226}', '\u{304}'))
                                    } else {
                                        None
                                    }
                                } else {
                                    if u == 0x1E1 {
                                        Some(('\u{227}', '\u{304}'))
                                    } else if u == 0x1E2 {
                                        Some(('\u{C6}', '\u{304}'))
                                    } else {
                                        None
                                    }
                                }
                            }
                        }
                    }
                }
            } else {
                if u < 0x209 {
                    if u < 0x1F9 {
                        if u < 0x1EC {
                            if u < 0x1E8 {
                                if u == 0x1E3 {
                                    Some(('\u{E6}', '\u{304}'))
                                } else if u == 0x1E6 {
                                    Some(('G', '\u{30C}'))
                                } else if u == 0x1E7 {
                                    Some(('g', '\u{30C}'))
                                } else {
                                    None
                                }
                            } else {
                                if u < 0x1EA {
                                    if u == 0x1E8 {
                                        Some(('K', '\u{30C}'))
                                    } else if u == 0x1E9 {
                                        Some(('k', '\u{30C}'))
                                    } else {
                                        None
                                    }
                                } else {
                                    if u == 0x1EA {
                                        Some(('O', '\u{328}'))
                                    } else if u == 0x1EB {
                                        Some(('o', '\u{328}'))
                                    } else {
                                        None
                                    }
                                }
                            }
                        } else {
                            if u < 0x1F0 {
                                if u < 0x1EE {
                                    if u == 0x1EC {
                                        Some(('\u{1EA}', '\u{304}'))
                                    } else if u == 0x1ED {
                                        Some(('\u{1EB}', '\u{304}'))
                                    } else {
                                        None
                                    }
                                } else {
                                    if u == 0x1EE {
                                        Some(('\u{1B7}', '\u{30C}'))
                                    } else if u == 0x1EF {
                                        Some(('\u{292}', '\u{30C}'))
                                    } else {
                                        None
                                    }
                                }
                            } else {
                                if u < 0x1F5 {
                                    if u == 0x1F0 {
                                        Some(('j', '\u{30C}'))
                                    } else if u == 0x1F4 {
                                        Some(('G', '\u{301}'))
                                    } else {
                                        None
                                    }
                                } else {
                                    if u == 0x1F5 {
                                        Some(('g', '\u{301}'))
                                    } else if u == 0x1F8 {
                                        Some(('N', '\u{300}'))
                                    } else {
                                        None
                                    }
                                }
                            }
                        }
                    } else {
                        if u < 0x201 {
                            if u < 0x1FD {
                                if u < 0x1FB {
                                    if u == 0x1F9 {
                                        Some(('n', '\u{300}'))
                                    } else if u == 0x1FA {
                                        Some(('\u{C5}', '\u{301}'))
                                    } else {
                                        None
                                    }
                                } else {
                                    if u == 0x1FB {
                                        Some(('\u{E5}', '\u{301}'))
                                    } else if u == 0x1FC {
                                        Some(('\u{C6}', '\u{301}'))
                                    } else {
                                        None
                                    }
                                }
                            } else {
                                if u < 0x1FF {
                                    if u == 0x1FD {
                                        Some(('\u{E6}', '\u{301}'))
                                    } else if u == 0x1FE {
                                        Some(('\u{D8}', '\u{301}'))
                                    } else {
                                        None
                                    }
                                } else {
                                    if u == 0x1FF {
                                        Some(('\u{F8}', '\u{301}'))
                                    } else if u == 0x200 {
                                        Some(('A', '\u{30F}'))
                                    } else {
                                        None
                                    }
                                }
                            }
                        } else {
                            if u < 0x205 {
                                if u < 0x203 {
                                    if u == 0x201 {
                                        Some(('a', '\u{30F}'))
                                    } else if u == 0x202 {
                                        Some(('A', '\u{311}'))
                                    } else {
                                        None
                                    }
                                } else {
                                    if u == 0x203 {
                                        Some(('a', '\u{311}'))
                                    } else if u == 0x204 {
                                        Some(('E', '\u{30F}'))
                                    } else {
                                        None
                                    }
                                }
                            } else {
                                if u < 0x207 {
                                    if u == 0x205 {
                                        Some(('e', '\u{30F}'))
                                    } else if u == 0x206 {
                                        Some(('E', '\u{311}'))
                                    } else {
                                        None
                                    }
                                } else {
                                    if u == 0x207 {
                                        Some(('e', '\u{311}'))
                                    } else if u == 0x208 {
                                        Some(('I', '\u{30F}'))
                                    } else {
                                        None
                                    }
                                }
                            }
                        }
                    }
                } else {
                    if u < 0x219 {
                        if u < 0x211 {
                            if u < 0x20D {
                                if u < 0x20B {
                                    if u == 0x209 {
                                        Some(('i', '\u{30F}'))
                                    } else if u == 0x20A {
                                        Some(('I', '\u{311}'))
                                    } else {
                                        None
                                    }
                                } else {
                                    if u == 0x20B {
                                        Some(('i', '\u{311}'))
                                    } else if u == 0x20C {
                                        Some(('O', '\u{30F}'))
                                    } else {
                                        None
                                    }
                                }
                            } else {
                                if u < 0x20F {
                                    if u == 0x20D {
                                        Some(('o', '\u{30F}'))
                                    } else if u == 0x20E {
                                        Some(('O', '\u{311}'))
                                    } else {
                                        None
                                    }
                                } else {
                                    if u == 0x20F {
                                        Some(('o', '\u{311}'))
                                    } else if u == 0x210 {
                                        Some(('R', '\u{30F}'))
                                    } else {
                                        None
                                    }
                                }
                            }
                        } else {
                            if u < 0x215 {
                                if u < 0x213 {
                                    if u == 0x211 {
                                        Some(('r', '\u{30F}'))
                                    } else if u == 0x212 {
                                        Some(('R', '\u{311}'))
                                    } else {
                                        None
                                    }
                                } else {
                                    if u == 0x213 {
                                        Some(('r', '\u{311}'))
                                    } else if u == 0x214 {
                                        Some(('U', '\u{30F}'))
                                    } else {
                                        None
                                    }
                                }
                            } else {
                                if u < 0x217 {
                                    if u == 0x215 {
                                        Some(('u', '\u{30F}'))
                                    } else if u == 0x216 {
                                        Some(('U', '\u{311}'))
                                    } else {
                                        None
                                    }
                                } else {
                                    if u == 0x217 {
                                        Some(('u', '\u{311}'))
                                    } else if u == 0x218 {
                                        Some(('S', '\u{326}'))
                                    } else {
                                        None
                                    }
                                }
                            }
                        }
                    } else {
                        if u < 0x229 {
                            if u < 0x21F {
                                if u < 0x21B {
                                    if u == 0x219 {
                                        Some(('s', '\u{326}'))
                                    } else if u == 0x21A {
                                        Some(('T', '\u{326}'))
                                    } else {
                                        None
                                    }
                                } else {
                                    if u == 0x21B {
                                        Some(('t', '\u{326}'))
                                    } else if u == 0x21E {
                                        Some(('H', '\u{30C}'))
                                    } else {
                                        None
                                    }
                                }
                            } else {
                                if u < 0x227 {
                                    if u == 0x21F {
                                        Some(('h', '\u{30C}'))
                                    } else if u == 0x226 {
                                        Some(('A', '\u{307}'))
                                    } else {
                                        None
                                    }
                                } else {
                                    if u == 0x227 {
                                        Some(('a', '\u{307}'))
                                    } else if u == 0x228 {
                                        Some(('E', '\u{327}'))
                                    } else {
                                        None
                                    }
                                }
                            }
                        } else {
                            if u < 0x22D {
                                if u < 0x22B {
                                    if u == 0x229 {
                                        Some(('e', '\u{327}'))
                                    } else if u == 0x22A {
                                        Some(('\u{D6}', '\u{304}'))
                                    } else {
                                        None
                                    }
                                } else {
                                    if u == 0x22B {
                                        Some(('\u{F6}', '\u{304}'))
                                    } else if u == 0x22C {
                                        Some(('\u{D5}', '\u{304}'))
                                    } else {
                                        None
                                    }
                                }
                            } else {
                                if u < 0x22F {
                                    if u == 0x22D {
                                        Some(('\u{F5}', '\u{304}'))
                                    } else if u == 0x22E {
                                        Some(('O', '\u{307}'))
                                    } else {
                                        None
                                    }
                                } else {
                                    if u == 0x22F {
                                        Some(('o', '\u{307}'))
                                    } else if u == 0x230 {
                                        Some(('\u{22E}', '\u{304}'))
                                    } else {
                                        None
                                    }
                                }
                            }
                        }
                    }
                }
            }
        }
    } else {
        if u < 0x1E78 {
            if u < 0x1E3A {
                if u < 0x1E1B {
                    if u < 0x1E0B {
                        if u < 0x1E03 {
                            if u < 0x344 {
                                if u == 0x231 {
                                    Some(('\u{22F}', '\u{304}'))
                                } else if u == 0x232 {
                                    Some(('Y', '\u{304}'))
                                } else if u == 0x233 {
                                    Some(('y', '\u{304}'))
                                } else {
                                    None
                                }
                            } else {
                                if u < 0x1E01 {
                                    if u == 0x344 {
                                        Some(('\u{308}', '\u{301}'))
                                    } else if u == 0x1E00 {
                                        Some(('A', '\u{325}'))
                                    } else {
                                        None
                                    }
                                } else {
                                    if u == 0x1E01 {
                                        Some(('a', '\u{325}'))
                                    } else if u == 0x1E02 {
                                        Some(('B', '\u{307}'))
                                    } else {
                                        None
                                    }
                                }
                            }
                        } else {
                            if u < 0x1E07 {
                                if u < 0x1E05 {
                                    if u == 0x1E03 {
                                        Some(('b', '\u{307}'))
                                    } else if u == 0x1E04 {
                                        Some(('B', '\u{323}'))
                                    } else {
                                        None
                                    }
                                } else {
                                    if u == 0x1E05 {
                                        Some(('b', '\u{323}'))
                                    } else if u == 0x1E06 {
                                        Some(('B', '\u{331}'))
                                    } else {
                                        None
                                    }
                                }
                            } else {
                                if u < 0x1E09 {
                                    if u == 0x1E07 {
                                        Some(('b', '\u{331}'))
                                    } else if u == 0x1E08 {
                                        Some(('\u{C7}', '\u{301}'))
                                    } else {
                                        None
                                    }
                                } else {
                                    if u == 0x1E09 {
                                        Some(('\u{E7}', '\u{301}'))
                                    } else if u == 0x1E0A {
                                        Some(('D', '\u{307}'))
                                    } else {
                                        None
                                    }
                                }
                            }
                        }
                    } else {
                        if u < 0x1E13 {
                            if u < 0x1E0F {
                                if u < 0x1E0D {
                                    if u == 0x1E0B {
                                        Some(('d', '\u{307}'))
                                    } else if u == 0x1E0C {
                                        Some(('D', '\u{323}'))
                                    } else {
                                        None
                                    }
                                } else {
                                    if u == 0x1E0D {
                                        Some(('d', '\u{323}'))
                                    } else if u == 0x1E0E {
                                        Some(('D', '\u{331}'))
                                    } else {
                                        None
                                    }
                                }
                            } else {
                                if u < 0x1E11 {
                                    if u == 0x1E0F {
                                        Some(('d', '\u{331}'))
                                    } else if u == 0x1E10 {
                                        Some(('D', '\u{327}'))
                                    } else {
                                        None
                                    }
                                } else {
                                    if u == 0x1E11 {
                                        Some(('d', '\u{327}'))
                                    } else if u == 0x1E12 {
                                        Some(('D', '\u{32D}'))
                                    } else {
                                        None
                                    }
                                }
                            }
                        } else {
                            if u < 0x1E17 {
                                if u < 0x1E15 {
                                    if u == 0x1E13 {
                                        Some(('d', '\u{32D}'))
                                    } else if u == 0x1E14 {
                                        Some(('\u{112}', '\u{300}'))
                                    } else {
                                        None
                                    }
                                } else {
                                    if u == 0x1E15 {
                                        Some(('\u{113}', '\u{300}'))
                                    } else if u == 0x1E16 {
                                        Some(('\u{112}', '\u{301}'))
                                    } else {
                                        None
                                    }
                                }
                            } else {
                                if u < 0x1E19 {
                                    if u == 0x1E17 {
                                        Some(('\u{113}', '\u{301}'))
                                    } else if u == 0x1E18 {
                                        Some(('E', '\u{32D}'))
                                    } else {
                                        None
                                    }
                                } else {
                                    if u == 0x1E19 {
                                        Some(('e', '\u{32D}'))
                                    } else if u == 0x1E1A {
                                        Some(('E', '\u{330}'))
                                    } else {
                                        None
                                    }
                                }
                            }
                        }
                    }
                } else {
                    if u < 0x1E2A {
                        if u < 0x1E22 {
                            if u < 0x1E1E {
                                if u == 0x1E1B {
                                    Some(('e', '\u{330}'))
                                } else if u == 0x1E1C {
                                    Some(('\u{228}', '\u{306}'))
                                } else if u == 0x1E1D {
                                    Some(('\u{229}', '\u{306}'))
                                } else {
                                    None
                                }
                            } else {
                                if u < 0x1E20 {
                                    if u == 0x1E1E {
                                        Some(('F', '\u{307}'))
                                    } else if u == 0x1E1F {
                                        Some(('f', '\u{307}'))
                                    } else {
                                        None
                                    }
                                } else {
                                    if u == 0x1E20 {
                                        Some(('G', '\u{304}'))
                                    } else if u == 0x1E21 {
                                        Some(('g', '\u{304}'))
                                    } else {
                                        None
                                    }
                                }
                            }
                        } else {
                            if u < 0x1E26 {
                                if u < 0x1E24 {
                                    if u == 0x1E22 {
                                        Some(('H', '\u{307}'))
                                    } else if u == 0x1E23 {
                                        Some(('h', '\u{307}'))
                                    } else {
                                        None
                                    }
                                } else {
                                    if u == 0x1E24 {
                                        Some(('H', '\u{323}'))
                                    } else if u == 0x1E25 {
                                        Some(('h', '\u{323}'))
                                    } else {
                                        None
                                    }
                                }
                            } else {
                                if u < 0x1E28 {
                                    if u == 0x1E26 {
                                        Some(('H', '\u{308}'))
                                    } else if u == 0x1E27 {
                                        Some(('h', '\u{308}'))
                                    } else {
                                        None
                                    }
                                } else {
                                    if u == 0x1E28 {
                                        Some(('H', '\u{327}'))
                                    } else if u == 0x1E29 {
                                        Some(('h', '\u{327}'))
                                    } else {
                                        None
                                    }
                                }
                            }
                        }
                    } else {
                        if u < 0x1E32 {
                            if u < 0x1E2E {
                                if u < 0x1E2C {
                                    if u == 0x1E2A {
                                        Some(('H', '\u{32E}'))
                                    } else if u == 0x1E2B {
                                        Some(('h', '\u{32E}'))
                                    } else {
                                        None
                                    }
                                } else {
                                    if u == 0x1E2C {
                                        Some(('I', '\u{330}'))
                                    } else if u == 0x1E2D {
                                        Some(('i', '\u{330}'))
                                    } else {
                                        None
                                    }
                                }
                            } else {
                                if u < 0x1E30 {
                                    if u == 0x1E2E {
                                        Some(('\u{CF}', '\u{301}'))
                                    } else if u == 0x1E2F {
                                        Some(('\u{EF}', '\u{301}'))
                                    } else {
                                        None
                                    }
                                } else {
                                    if u == 0x1E30 {
                                        Some(('K', '\u{301}'))
                                    } else if u == 0x1E31 {
                                        Some(('k', '\u{301}'))
                                    } else {
                                        None
                                    }
                                }
                            }
                        } else {
                            if u < 0x1E36 {
                                if u < 0x1E34 {
                                    if u == 0x1E32 {
                                        Some(('K', '\u{323}'))
                                    } else if u == 0x1E33 {
                                        Some(('k', '\u{323}'))
                                    } else {
                                        None
                                    }
                                } else {
                                    if u == 0x1E34 {
                                        Some(('K', '\u{331}'))
                                    } else if u == 0x1E35 {
                                        Some(('k', '\u{331}'))
                                    } else {
                                        None
                                    }
                                }
                            } else {
                                if u < 0x1E38 {
                                    if u == 0x1E36 {
                                        Some(('L', '\u{323}'))
                                    } else if u == 0x1E37 {
                                        Some(('l', '\u{323}'))
                                    } else {
                                        None
                                    }
                                } else {
                                    if u == 0x1E38 {
                                        Some(('\u{1E36}', '\u{304}'))
                                    } else if u == 0x1E39 {
                                        Some(('\u{1E37}', '\u{304}'))
                                    } else {
                                        None
                                    }
                                }
                            }
                        }
                    }
                }
            } else {
                if u < 0x1E59 {
                    if u < 0x1E49 {
                        if u < 0x1E41 {
                            if u < 0x1E3D {
                                if u == 0x1E3A {
                                    Some(('L', '\u{331}'))
                                } else if u == 0x1E3B {
                                    Some(('l', '\u{331}'))
                                } else if u == 0x1E3C {
                                    Some(('L', '\u{32D}'))
                                } else {
                                    None
                                }
                            } else {
                                if u < 0x1E3F {
                                    if u == 0x1E3D {
                                        Some(('l', '\u{32D}'))
                                    } else if u == 0x1E3E {
                                        Some(('M', '\u{301}'))
                                    } else {
                                        None
                                    }
                                } else {
                                    if u == 0x1E3F {
                                        Some(('m', '\u{301}'))
                                    } else if u == 0x1E40 {
                                        Some(('M', '\u{307}'))
                                    } else {
                                        None
                                    }
                                }
                            }
                        } else {
                            if u < 0x1E45 {
                                if u < 0x1E43 {
                                    if u == 0x1E41 {
                                        Some(('m', '\u{307}'))
                                    } else if u == 0x1E42 {
                                        Some(('M', '\u{323}'))
                                    } else {
                                        None
                                    }
                                } else {
                                    if u == 0x1E43 {
                                        Some(('m', '\u{323}'))
                                    } else if u == 0x1E44 {
                                        Some(('N', '\u{307}'))
                                    } else {
                                        None
                                    }
                                }
                            } else {
                                if u < 0x1E47 {
                                    if u == 0x1E45 {
                                        Some(('n', '\u{307}'))
                                    } else if u == 0x1E46 {
                                        Some(('N', '\u{323}'))
                                    } else {
                                        None
                                    }
                                } else {
                                    if u == 0x1E47 {
                                        Some(('n', '\u{323}'))
                                    } else if u == 0x1E48 {
                                        Some(('N', '\u{331}'))
                                    } else {
                                        None
                                    }
                                }
                            }
                        }
                    } else {
                        if u < 0x1E51 {
                            if u < 0x1E4D {
                                if u < 0x1E4B {
                                    if u == 0x1E49 {
                                        Some(('n', '\u{331}'))
                                    } else if u == 0x1E4A {
                                        Some(('N', '\u{32D}'))
                                    } else {
                                        None
                                    }
                                } else {
                                    if u == 0x1E4B {
                                        Some(('n', '\u{32D}'))
                                    } else if u == 0x1E4C {
                                        Some(('\u{D5}', '\u{301}'))
                                    } else {
                                        None
                                    }
                                }
                            } else {
                                if u < 0x1E4F {
                                    if u == 0x1E4D {
                                        Some(('\u{F5}', '\u{301}'))
                                    } else if u == 0x1E4E {
                                        Some(('\u{D5}', '\u{308}'))
                                    } else {
                                        None
                                    }
                                } else {
                                    if u == 0x1E4F {
                                        Some(('\u{F5}', '\u{308}'))
                                    } else if u == 0x1E50 {
                                        Some(('\u{14C}', '\u{300}'))
                                    } else {
                                        None
                                    }
                                }
                            }
                        } else {
                            if u < 0x1E55 {
                                if u < 0x1E53 {
                                    if u == 0x1E51 {
                                        Some(('\u{14D}', '\u{300}'))
                                    } else if u == 0x1E52 {
                                        Some(('\u{14C}', '\u{301}'))
                                    } else {
                                        None
                                    }
                                } else {
                                    if u == 0x1E53 {
                                        Some(('\u{14D}', '\u{301}'))
                                    } else if u == 0x1E54 {
                                        Some(('P', '\u{301}'))
                                    } else {
                                        None
                                    }
                                }
                            } else {
                                if u < 0x1E57 {
                                    if u == 0x1E55 {
                                        Some(('p', '\u{301}'))
                                    } else if u == 0x1E56 {
                                        Some(('P', '\u{307}'))
                                    } else {
                                        None
                                    }
                                } else {
                                    if u == 0x1E57 {
                                        Some(('p', '\u{307}'))
                                    } else if u == 0x1E58 {
                                        Some(('R', '\u{307}'))
                                    } else {
                                        None
                                    }
                                }
                            }
                        }
                    }
                } else {
                    if u < 0x1E68 {
                        if u < 0x1E60 {
                            if u < 0x1E5C {
                                if u == 0x1E59 {
                                    Some(('r', '\u{307}'))
                                } else if u == 0x1E5A {
                                    Some(('R', '\u{323}'))
                                } else if u == 0x1E5B {
                                    Some(('r', '\u{323}'))
                                } else {
                                    None
                                }
                            } else {
                                if u < 0x1E5E {
                                    if u == 0x1E5C {
                                        Some(('\u{1E5A}', '\u{304}'))
                                    } else if u == 0x1E5D {
                                        Some(('\u{1E5B}', '\u{304}'))
                                    } else {
                                        None
                                    }
                                } else {
                                    if u == 0x1E5E {
                                        Some(('R', '\u{331}'))
                                    } else if u == 0x1E5F {
                                        Some(('r', '\u{331}'))
                                    } else {
                                        None
                                    }
                                }
                            }
                        } else {
                            if u < 0x1E64 {
                                if u < 0x1E62 {
                                    if u == 0x1E60 {
                                        Some(('S', '\u{307}'))
                                    } else if u == 0x1E61 {
                                        Some(('s', '\u{307}'))
                                    } else {
                                        None
                                    }
                                } else {
                                    if u == 0x1E62 {
                                        Some(('S', '\u{323}'))
                                    } else if u == 0x1E63 {
                                        Some(('s', '\u{323}'))
                                    } else {
                                        None
                                    }
                                }
                            } else {
                                if u < 0x1E66 {
                                    if u == 0x1E64 {
                                        Some(('\u{15A}', '\u{307}'))
                                    } else if u == 0x1E65 {
                                        Some(('\u{15B}', '\u{307}'))
                                    } else {
                                        None
                                    }
                                } else {
                                    if u == 0x1E66 {
                                        Some(('\u{160}', '\u{307}'))
                                    } else if u == 0x1E67 {
                                        Some(('\u{161}', '\u{307}'))
                                    } else {
                                        None
                                    }
                                }
                            }
                        }
                    } else {
                        if u < 0x1E70 {
                            if u < 0x1E6C {
                                if u < 0x1E6A {
                                    if u == 0x1E68 {
                                        Some(('\u{1E62}', '\u{307}'))
                                    } else if u == 0x1E69 {
                                        Some(('\u{1E63}', '\u{307}'))
                                    } else {
                                        None
                                    }
                                } else {
                                    if u == 0x1E6A {
                                        Some(('T', '\u{307}'))
                                    } else if u == 0x1E6B {
                                        Some(('t', '\u{307}'))
                                    } else {
                                        None
                                    }
                                }
                            } else {
                                if u < 0x1E6E {
                                    if u == 0x1E6C {
                                        Some(('T', '\u{323}'))
                                    } else if u == 0x1E6D {
                                        Some(('t', '\u{323}'))
                                    } else {
                                        None
                                    }
                                } else {
                                    if u == 0x1E6E {
                                        Some(('T', '\u{331}'))
                                    } else if u == 0x1E6F {
                                        Some(('t', '\u{331}'))
                                    } else {
                                        None
                                    }
                                }
                            }
                        } else {
                            if u < 0x1E74 {
                                if u < 0x1E72 {
                                    if u == 0x1E70 {
                                        Some(('T', '\u{32D}'))
                                    } else if u == 0x1E71 {
                                        Some(('t', '\u{32D}'))
                                    } else {
                                        None
                                    }
                                } else {
                                    if u == 0x1E72 {
                                        Some(('U', '\u{324}'))
                                    } else if u == 0x1E73 {
                                        Some(('u', '\u{324}'))
                                    } else {
                                        None
                                    }
                                }
                            } else {
                                if u < 0x1E76 {
                                    if u == 0x1E74 {
                                        Some(('U', '\u{330}'))
                                    } else if u == 0x1E75 {
                                        Some(('u', '\u{330}'))
                                    } else {
                                        None
                                    }
                                } else {
                                    if u == 0x1E76 {
                                        Some(('U', '\u{32D}'))
                                    } else if u == 0x1E77 {
                                        Some(('u', '\u{32D}'))
                                    } else {
                                        None
                                    }
                                }
                            }
                        }
                    }
                }
            }
        } else {
            if u < 0x1EBB {
                if u < 0x1E97 {
                    if u < 0x1E87 {
                        if u < 0x1E7F {
                            if u < 0x1E7B {
                                if u == 0x1E78 {
                                    Some(('\u{168}', '\u{301}'))
                                } else if u == 0x1E79 {
                                    Some(('\u{169}', '\u{301}'))
                                } else if u == 0x1E7A {
                                    Some(('\u{16A}', '\u{308}'))
                                } else {
                                    None
                                }
                            } else {
                                if u < 0x1E7D {
                                    if u == 0x1E7B {
                                        Some(('\u{16B}', '\u{308}'))
                                    } else if u == 0x1E7C {
                                        Some(('V', '\u{303}'))
                                    } else {
                                        None
                                    }
                                } else {
                                    if u == 0x1E7D {
                                        Some(('v', '\u{303}'))
                                    } else if u == 0x1E7E {
                                        Some(('V', '\u{323}'))
                                    } else {
                                        None
                                    }
                                }
                            }
                        } else {
                            if u < 0x1E83 {
                                if u < 0x1E81 {
                                    if u == 0x1E7F {
                                        Some(('v', '\u{323}'))
                                    } else if u == 0x1E80 {
                                        Some(('W', '\u{300}'))
                                    } else {
                                        None
                                    }
                                } else {
                                    if u == 0x1E81 {
                                        Some(('w', '\u{300}'))
                                    } else if u == 0x1E82 {
                                        Some(('W', '\u{301}'))
                                    } else {
                                        None
                                    }
                                }
                            } else {
                                if u < 0x1E85 {
                                    if u == 0x1E83 {
                                        Some(('w', '\u{301}'))
                                    } else if u == 0x1E84 {
                                        Some(('W', '\u{308}'))
                                    } else {
                                        None
                                    }
                                } else {
                                    if u == 0x1E85 {
                                        Some(('w', '\u{308}'))
                                    } else if u == 0x1E86 {
                                        Some(('W', '\u{307}'))
                                    } else {
                                        None
                                    }
                                }
                            }
                        }
                    } else {
                        if u < 0x1E8F {
                            if u < 0x1E8B {
                                if u < 0x1E89 {
                                    if u == 0x1E87 {
                                        Some(('w', '\u{307}'))
                                    } else if u == 0x1E88 {
                                        Some(('W', '\u{323}'))
                                    } else {
                                        None
                                    }
                                } else {
                                    if u == 0x1E89 {
                                        Some(('w', '\u{323}'))
                                    } else if u == 0x1E8A {
                                        Some(('X', '\u{307}'))
                                    } else {
                                        None
                                    }
                                }
                            } else {
                                if u < 0x1E8D {
                                    if u == 0x1E8B {
                                        Some(('x', '\u{307}'))
                                    } else if u == 0x1E8C {
                                        Some(('X', '\u{308}'))
                                    } else {
                                        None
                                    }
                                } else {
                                    if u == 0x1E8D {
                                        Some(('x', '\u{308}'))
                                    } else if u == 0x1E8E {
                                        Some(('Y', '\u{307}'))
                                    } else {
                                        None
                                    }
                                }
                            }
                        } else {
                            if u < 0x1E93 {
                                if u < 0x1E91 {
                                    if u == 0x1E8F {
                                        Some(('y', '\u{307}'))
                                    } else if u == 0x1E90 {
                                        Some(('Z', '\u{302}'))
                                    } else {
                                        None
                                    }
                                } else {
                                    if u == 0x1E91 {
                                        Some(('z', '\u{302}'))
                                    } else if u == 0x1E92 {
                                        Some(('Z', '\u{323}'))
                                    } else {
                                        None
                                    }
                                }
                            } else {
                                if u < 0x1E95 {
                                    if u == 0x1E93 {
                                        Some(('z', '\u{323}'))
                                    } else if u == 0x1E94 {
                                        Some(('Z', '\u{331}'))
                                    } else {
                                        None
                                    }
                                } else {
                                    if u == 0x1E95 {
                                        Some(('z', '\u{331}'))
                                    } else if u == 0x1E96 {
                                        Some(('h', '\u{331}'))
                                    } else {
                                        None
                                    }
                                }
                            }
                        }
                    }
                } else {
                    if u < 0x1EAB {
                        if u < 0x1EA3 {
                            if u < 0x1E9B {
                                if u == 0x1E97 {
                                    Some(('t', '\u{308}'))
                                } else if u == 0x1E98 {
                                    Some(('w', '\u{30A}'))
                                } else if u == 0x1E99 {
                                    Some(('y', '\u{30A}'))
                                } else {
                                    None
                                }
                            } else {
                                if u < 0x1EA1 {
                                    if u == 0x1E9B {
                                        Some(('\u{17F}', '\u{307}'))
                                    } else if u == 0x1EA0 {
                                        Some(('A', '\u{323}'))
                                    } else {
                                        None
                                    }
                                } else {
                                    if u == 0x1EA1 {
                                        Some(('a', '\u{323}'))
                                    } else if u == 0x1EA2 {
                                        Some(('A', '\u{309}'))
                                    } else {
                                        None
                                    }
                                }
                            }
                        } else {
                            if u < 0x1EA7 {
                                if u < 0x1EA5 {
                                    if u == 0x1EA3 {
                                        Some(('a', '\u{309}'))
                                    } else if u == 0x1EA4 {
                                        Some(('\u{C2}', '\u{301}'))
                                    } else {
                                        None
                                    }
                                } else {
                                    if u == 0x1EA5 {
                                        Some(('\u{E2}', '\u{301}'))
                                    } else if u == 0x1EA6 {
                                        Some(('\u{C2}', '\u{300}'))
                                    } else {
                                        None
                                    }
                                }
                            } else {
                                if u < 0x1EA9 {
                                    if u == 0x1EA7 {
                                        Some(('\u{E2}', '\u{300}'))
                                    } else if u == 0x1EA8 {
                                        Some(('\u{C2}', '\u{309}'))
                                    } else {
                                        None
                                    }
                                } else {
                                    if u == 0x1EA9 {
                                        Some(('\u{E2}', '\u{309}'))
                                    } else if u == 0x1EAA {
                                        Some(('\u{C2}', '\u{303}'))
                                    } else {
                                        None
                                    }
                                }
                            }
                        }
                    } else {
                        if u < 0x1EB3 {
                            if u < 0x1EAF {
                                if u < 0x1EAD {
                                    if u == 0x1EAB {
                                        Some(('\u{E2}', '\u{303}'))
                                    } else if u == 0x1EAC {
                                        Some(('\u{1EA0}', '\u{302}'))
                                    } else {
                                        None
                                    }
                                } else {
                                    if u == 0x1EAD {
                                        Some(('\u{1EA1}', '\u{302}'))
                                    } else if u == 0x1EAE {
                                        Some(('\u{102}', '\u{301}'))
                                    } else {
                                        None
                                    }
                                }
                            } else {
                                if u < 0x1EB1 {
                                    if u == 0x1EAF {
                                        Some(('\u{103}', '\u{301}'))
                                    } else if u == 0x1EB0 {
                                        Some(('\u{102}', '\u{300}'))
                                    } else {
                                        None
                                    }
                                } else {
                                    if u == 0x1EB1 {
                                        Some(('\u{103}', '\u{300}'))
                                    } else if u == 0x1EB2 {
                                        Some(('\u{102}', '\u{309}'))
                                    } else {
                                        None
                                    }
                                }
                            }
                        } else {
                            if u < 0x1EB7 {
                                if u < 0x1EB5 {
                                    if u == 0x1EB3 {
                                        Some(('\u{103}', '\u{309}'))
                                    } else if u == 0x1EB4 {
                                        Some(('\u{102}', '\u{303}'))
                                    } else {
                                        None
                                    }
                                } else {
                                    if u == 0x1EB5 {
                                        Some(('\u{103}', '\u{303}'))
                                    } else if u == 0x1EB6 {
                                        Some(('\u{1EA0}', '\u{306}'))
                                    } else {
                                        None
                                    }
                                }
                            } else {
                                if u < 0x1EB9 {
                                    if u == 0x1EB7 {
                                        Some(('\u{1EA1}', '\u{306}'))
                                    } else if u == 0x1EB8 {
                                        Some(('E', '\u{323}'))
                                    } else {
                                        None
                                    }
                                } else {
                                    if u == 0x1EB9 {
                                        Some(('e', '\u{323}'))
                                    } else if u == 0x1EBA {
                                        Some(('E', '\u{309}'))
                                    } else {
                                        None
                                    }
                                }
                            }
                        }
                    }
                }
            } else {
                if u < 0x1EDA {
                    if u < 0x1ECA {
                        if u < 0x1EC2 {
                            if u < 0x1EBE {
                                if u == 0x1EBB {
                                    Some(('e', '\u{309}'))
                                } else if u == 0x1EBC {
                                    Some(('E', '\u{303}'))
                                } else if u == 0x1EBD {
                                    Some(('e', '\u{303}'))
                                } else {
                                    None
                                }
                            } else {
                                if u < 0x1EC0 {
                                    if u == 0x1EBE {
                                        Some(('\u{CA}', '\u{301}'))
                                    } else if u == 0x1EBF {
                                        Some(('\u{EA}', '\u{301}'))
                                    } else {
                                        None
                                    }
                                } else {
                                    if u == 0x1EC0 {
                                        Some(('\u{CA}', '\u{300}'))
                                    } else if u == 0x1EC1 {
                                        Some(('\u{EA}', '\u{300}'))
                                    } else {
                                        None
                                    }
                                }
                            }
                        } else {
                            if u < 0x1EC6 {
                                if u < 0x1EC4 {
                                    if u == 0x1EC2 {
                                        Some(('\u{CA}', '\u{309}'))
                                    } else if u == 0x1EC3 {
                                        Some(('\u{EA}', '\u{309}'))
                                    } else {
                                        None
                                    }
                                } else {
                                    if u == 0x1EC4 {
                                        Some(('\u{CA}', '\u{303}'))
                                    } else if u == 0x1EC5 {
                                        Some(('\u{EA}', '\u{303}'))
                                    } else {
                                        None
                                    }
                                }
                            } else {
                                if u < 0x1EC8 {
                                    if u == 0x1EC6 {
                                        Some(('\u{1EB8}', '\u{302}'))
                                    } else if u == 0x1EC7 {
                                        Some(('\u{1EB9}', '\u{302}'))
                                    } else {
                                        None
                                    }
                                } else {
                                    if u == 0x1EC8 {
                                        Some(('I', '\u{309}'))
                                    } else if u == 0x1EC9 {
                                        Some(('i', '\u{309}'))
                                    } else {
                                        None
                                    }
                                }
                            }
                        }
                    } else {
                        if u < 0x1ED2 {
                            if u < 0x1ECE {
                                if u < 0x1ECC {
                                    if u == 0x1ECA {
                                        Some(('I', '\u{323}'))
                                    } else if u == 0x1ECB {
                                        Some(('i', '\u{323}'))
                                    } else {
                                        None
                                    }
                                } else {
                                    if u == 0x1ECC {
                                        Some(('O', '\u{323}'))
                                    } else if u == 0x1ECD {
                                        Some(('o', '\u{323}'))
                                    } else {
                                        None
                                    }
                                }
                            } else {
                                if u < 0x1ED0 {
                                    if u == 0x1ECE {
                                        Some(('O', '\u{309}'))
                                    } else if u == 0x1ECF {
                                        Some(('o', '\u{309}'))
                                    } else {
                                        None
                                    }
                                } else {
                                    if u == 0x1ED0 {
                                        Some(('\u{D4}', '\u{301}'))
                                    } else if u == 0x1ED1 {
                                        Some(('\u{F4}', '\u{301}'))
                                    } else {
                                        None
                                    }
                                }
                            }
                        } else {
                            if u < 0x1ED6 {
                                if u < 0x1ED4 {
                                    if u == 0x1ED2 {
                                        Some(('\u{D4}', '\u{300}'))
                                    } else if u == 0x1ED3 {
                                        Some(('\u{F4}', '\u{300}'))
                                    } else {
                                        None
                                    }
                                } else {
                                    if u == 0x1ED4 {
                                        Some(('\u{D4}', '\u{309}'))
                                    } else if u == 0x1ED5 {
                                        Some(('\u{F4}', '\u{309}'))
                                    } else {
                                        None
                                    }
                                }
                            } else {
                                if u < 0x1ED8 {
                                    if u == 0x1ED6 {
                                        Some(('\u{D4}', '\u{303}'))
                                    } else if u == 0x1ED7 {
                                        Some(('\u{F4}', '\u{303}'))
                                    } else {
                                        None
                                    }
                                } else {
                                    if u == 0x1ED8 {
                                        Some(('\u{1ECC}', '\u{302}'))
                                    } else if u == 0x1ED9 {
                                        Some(('\u{1ECD}', '\u{302}'))
                                    } else {
                                        None
                                    }
                                }
                            }
                        }
                    }
                } else {
                    if u < 0x1EEA {
                        if u < 0x1EE2 {
                            if u < 0x1EDE {
                                if u < 0x1EDC {
                                    if u == 0x1EDA {
                                        Some(('\u{1A0}', '\u{301}'))
                                    } else if u == 0x1EDB {
                                        Some(('\u{1A1}', '\u{301}'))
                                    } else {
                                        None
                                    }
                                } else {
                                    if u == 0x1EDC {
                                        Some(('\u{1A0}', '\u{300}'))
                                    } else if u == 0x1EDD {
                                        Some(('\u{1A1}', '\u{300}'))
                                    } else {
                                        None
                                    }
                                }
                            } else {
                                if u < 0x1EE0 {
                                    if u == 0x1EDE {
                                        Some(('\u{1A0}', '\u{309}'))
                                    } else if u == 0x1EDF {
                                        Some(('\u{1A1}', '\u{309}'))
                                    } else {
                                        None
                                    }
                                } else {
                                    if u == 0x1EE0 {
                                        Some(('\u{1A0}', '\u{303}'))
                                    } else if u == 0x1EE1 {
                                        Some(('\u{1A1}', '\u{303}'))
                                    } else {
                                        None
                                    }
                                }
                            }
                        } else {
                            if u < 0x1EE6 {
                                if u < 0x1EE4 {
                                    if u == 0x1EE2 {
                                        Some(('\u{1A0}', '\u{323}'))
                                    } else if u == 0x1EE3 {
                                        Some(('\u{1A1}', '\u{323}'))
                                    } else {
                                        None
                                    }
                                } else {
                                    if u == 0x1EE4 {
                                        Some(('U', '\u{323}'))
                                    } else if u == 0x1EE5 {
                                        Some(('u', '\u{323}'))
                                    } else {
                                        None
                                    }
                                }
                            } else {
                                if u < 0x1EE8 {
                                    if u == 0x1EE6 {
                                        Some(('U', '\u{309}'))
                                    } else if u == 0x1EE7 {
                                        Some(('u', '\u{309}'))
                                    } else {
                                        None
                                    }
                                } else {
                                    if u == 0x1EE8 {
                                        Some(('\u{1AF}', '\u{301}'))
                                    } else if u == 0x1EE9 {
                                        Some(('\u{1B0}', '\u{301}'))
                                    } else {
                                        None
                                    }
                                }
                            }
                        }
                    } else {
                        if u < 0x1EF2 {
                            if u < 0x1EEE {
                                if u < 0x1EEC {
                                    if u == 0x1EEA {
                                        Some(('\u{1AF}', '\u{300}'))
                                    } else if u == 0x1EEB {
                                        Some(('\u{1B0}', '\u{300}'))
                                    } else {
                                        None
                                    }
                                } else {
                                    if u == 0x1EEC {
                                        Some(('\u{1AF}', '\u{309}'))
                                    } else if u == 0x1EED {
                                        Some(('\u{1B0}', '\u{309}'))
                                    } else {
                                        None
                                    }
                                }
                            } else {
                                if u < 0x1EF0 {
                                    if u == 0x1EEE {
                                        Some(('\u{1AF}', '\u{303}'))
                                    } else if u == 0x1EEF {
                                        Some(('\u{1B0}', '\u{303}'))
                                    } else {
                                        None
                                    }
                                } else {
                                    if u == 0x1EF0 {
                                        Some(('\u{1AF}', '\u{323}'))
                                    } else if u == 0x1EF1 {
                                        Some(('\u{1B0}', '\u{323}'))
                                    } else {
                                        None
                                    }
                                }
                            }
                        } else {
                            if u < 0x1EF6 {
                                if u < 0x1EF4 {
                                    if u == 0x1EF2 {
                                        Some(('Y', '\u{300}'))
                                    } else if u == 0x1EF3 {
                                        Some(('y', '\u{300}'))
                                    } else {
                                        None
                                    }
                                } else {
                                    if u == 0x1EF4 {
                                        Some(('Y', '\u{323}'))
                                    } else if u == 0x1EF5 {
                                        Some(('y', '\u{323}'))
                                    } else {
                                        None
                                    }
                                }
                            } else {
                                if u < 0x1EF8 {
                                    if u == 0x1EF6 {
                                        Some(('Y', '\u{309}'))
                                    } else if u == 0x1EF7 {
                                        Some(('y', '\u{309}'))
                                    } else {
                                        None
                                    }
                                } else {
                                    if u == 0x1EF8 {
                                        Some(('Y', '\u{303}'))
                                    } else if u == 0x1EF9 {
                                        Some(('y', '\u{303}'))
                                    } else {
                                        None
                                    }
                                }
                            }
                        }
                    }
                }
            }
        }
    }
}

/// The canonical decomposition of a character, where the table has one.
pub fn canonical_pair_of(c: char) -> (r: Option<(char, char)>)
    ensures
        r == canonical_pair(c),
{
    let u = c as u32;
    if u < 0x231 {
        if u < 0x158 {
            if u < 0x109 {
                if u < 0xE5 {
                    if u < 0xD1 {
                        if u < 0xC8 {
                            if u < 0xC3 {
                                if u == 0xC0 {
                                    Some(('A', '\u{300}'))
                                } else if u == 0xC1 {
                                    Some(('A', '\u{301}'))
                                } else if u == 0xC2 {
                                    Some(('A', '\u{302}'))
                                } else {
                                    None
                                }
                            } else {
                                if u < 0xC5 {
                                    if u == 0xC3 {
                                        Some(('A', '\u{303}'))
                                    } else if u == 0xC4 {
                                        Some(('A', '\u{308}'))
                                    } else {
                                        None
                                    }
                                } else {
                                    if u == 0xC5 {
                                        Some(('A', '\u{30A}'))
                                    } else if u == 0xC7 {
                                        Some(('C', '\u{327}'))
                                    } else {
                                        None
                                    }
                                }
                            }
                        } else {
                            if u < 0xCC {
                                if u < 0xCA {
                                    if u == 0xC8 {
                                        Some(('E', '\u{300}'))
                                    } else if u == 0xC9 {
                                        Some(('E', '\u{301}'))
                                    } else {
                                        None
                                    }
                                } else {
                                    if u == 0xCA {
                                        Some(('E', '\u{302}'))
                                    } else if u == 0xCB {
                                        Some(('E', '\u{308}'))
                                    } else {
                                        None
                                    }
                                }
                            } else {
                                if u < 0xCE {
                                    if u == 0xCC {
                                        Some(('I', '\u{300}'))
                                    } else if u == 0xCD {
                                        Some(('I', '\u{301}'))
                                    } else {
                                        None
                                    }
                                } else {
                                    if u == 0xCE {
                                        Some(('I', '\u{302}'))
                                    } else if u == 0xCF {
                                        Some(('I', '\u{308}'))
                                    } else {
                                        None
                                    }
                                }
                            }
                        }
                    } else {
                        if u < 0xDB {
                            if u < 0xD5 {
                                if u < 0xD3 {
                                    if u == 0xD1 {
                                        Some(('N', '\u{303}'))
                                    } else if u == 0xD2 {
                                        Some(('O', '\u{300}'))
                                    } else {
                                        None
                                    }
                                } else {
                                    if u == 0xD3 {
                                        Some(('O', '\u{301}'))
                                    } else if u == 0xD4 {
                                        Some(('O', '\u{302}'))
                                    } else {
                                        None
                                    }
                                }
                            } else {
                                if u < 0xD9 {
                                    if u == 0xD5 {
                                        Some(('O', '\u{303}'))
                                    } else if u == 0xD6 {
                                        Some(('O', '\u{308}'))
                                    } else {
                                        None
                                    }
                                } else {
                                    if u == 0xD9 {
                                        Some(('U', '\u{300}'))
                                    } else if u == 0xDA {
                                        Some(('U', '\u{301}'))
                                    } else {
                                        None
                                    }
                                }
                            }
                        } else {
                            if u < 0xE1 {
                                if u < 0xDD {
                                    if u == 0xDB {
                                        Some(('U', '\u{302}'))
                                    } else if u == 0xDC {
                                        Some(('U', '\u{308}'))
                                    } else {
                                        None
                                    }
                                } else {
                                    if u == 0xDD {
                                        Some(('Y', '\u{301}'))
                                    } else if u == 0xE0 {
                                        Some(('a', '\u{300}'))
                                    } else {
                                        None
                                    }
                                }
                            } else {
                                if u < 0xE3 {
                                    if u == 0xE1 {
                                        Some(('a', '\u{301}'))
                                    } else if u == 0xE2 {
                                        Some(('a', '\u{302}'))
                                    } else {
                                        None
                                    }
                                } else {
                                    if u == 0xE3 {
                                        Some(('a', '\u{303}'))
                                    } else if u == 0xE4 {
                                        Some(('a', '\u{308}'))
                                    } else {
                                        None
                                    }
                                }
                            }
                        }
                    }
                } else {
                    if u < 0xF6 {
                        if u < 0xED {
                            if u < 0xE9 {
                                if u == 0xE5 {
                                    Some(('a', '\u{30A}'))
                                } else if u == 0xE7 {
                                    Some(('c', '\u{327}'))
                                } else if u == 0xE8 {
                                    Some(('e', '\u{300}'))
                                } else {
                                    None
                                }
                            } else {
                                if u < 0xEB {
                                    if u == 0xE9 {
                                        Some(('e', '\u{301}'))
                                    } else if u == 0xEA {
                                        Some(('e', '\u{302}'))
                                    } else {
                                        None
                                    }
                                } else {
                                    if u == 0xEB {
                                        Some(('e', '\u{308}'))
                                    } else if u == 0xEC {
                                        Some(('i', '\u{300}'))
                                    } else {
                                        None
                                    }
                                }
                            }
                        } else {
                            if u < 0xF2 {
                                if u < 0xEF {
                                    if u == 0xED {
                                        Some(('i', '\u{301}'))
                                    } else if u == 0xEE {
                                        Some(('i', '\u{302}'))
                                    } else {
                                        None
                                    }
                                } else {
                                    if u == 0xEF {
                                        Some(('i', '\u{308}'))
                                    } else if u == 0xF1 {
                                        Some(('n', '\u{303}'))
                                    } else {
                                        None
                                    }
                                }
                            } else {
                                if u < 0xF4 {
                                    if u == 0xF2 {
                                        Some(('o', '\u{300}'))
                                    } else if u == 0xF3 {
                                        Some(('o', '\u{301}'))
                                    } else {
                                        None
                                    }
                                } else {
                                    if u == 0xF4 {
                                        Some(('o', '\u{302}'))
                                    } else if u == 0xF5 {
                                        Some(('o', '\u{303}'))
                                    } else {
                                        None
                                    }
                                }
                            }
                        }
                    } else {
                        if u < 0x101 {
                            if u < 0xFC {
                                if u < 0xFA {
                                    if u == 0xF6 {
                                        Some(('o', '\u{308}'))
                                    } else if u == 0xF9 {
                                        Some(('u', '\u{300}'))
                                    } else {
                                        None
                                    }
                                } else {
                                    if u == 0xFA {
                                        Some(('u', '\u{301}'))
                                    } else if u == 0xFB {
                                        Some(('u', '\u{302}'))
                                    } else {
                                        None
                                    }
                                }
                            } else {
                                if u < 0xFF {
                                    if u == 0xFC {
                                        Some(('u', '\u{308}'))
                                    } else if u == 0xFD {
                                        Some(('y', '\u{301}'))
                                    } else {
                                        None
                                    }
                                } else {
                                    if u == 0xFF {
                                        Some(('y', '\u{308}'))
                                    } else if u == 0x100 {
                                        Some(('A', '\u{304}'))
                                    } else {
                                        None
                                    }
                                }
                            }
                        } else {
                            if u < 0x105 {
                                if u < 0x103 {
                                    if u == 0x101 {
                                        Some(('a', '\u{304}'))
                                    } else if u == 0x102 {
                                        Some(('A', '\u{306}'))
                                    } else {
                                        None
                                    }
                                } else {
                                    if u == 0x103 {
                                        Some(('a', '\u{306}'))
                                    } else if u == 0x104 {
                                        Some(('A', '\u{328}'))
                                    } else {
                                        None
                                    }
                                }
                            } else {
                                if u < 0x107 {
                                    if u == 0x105 {
                                        Some(('a', '\u{328}'))
                                    } else if u == 0x106 {
                                        Some(('C', '\u{301}'))
                                    } else {
                                        None
                                    }
                                } else {
                                    if u == 0x107 {
                                        Some(('c', '\u{301}'))
                                    } else if u == 0x108 {
                                        Some(('C', '\u{302}'))
                                    } else {
                                        None
                                    }
                                }
                            }
                        }
                    }
                }
            } else {
                if u < 0x12C {
                    if u < 0x11A {
                        if u < 0x112 {
                            if u < 0x10C {
                                if u == 0x109 {
                                    Some(('c', '\u{302}'))
                                } else if u == 0x10A {
                                    Some(('C', '\u{307}'))
                                } else if u == 0x10B {
                                    Some(('c', '\u{307}'))
                                } else {
                                    None
                                }
                            } else {
                                if u < 0x10E {
                                    if u == 0x10C {
                                        Some(('C', '\u{30C}'))
                                    } else if u == 0x10D {
                                        Some(('c', '\u{30C}'))
                                    } else {
                                        None
                                    }
                                } else {
                                    if u == 0x10E {
                                        Some(('D', '\u{30C}'))
                                    } else if u == 0x10F {
                                        Some(('d', '\u{30C}'))
                                    } else {
                                        None
                                    }
                                }
                            }
                        } else {
                            if u < 0x116 {
                                if u < 0x114 {
                                    if u == 0x112 {
                                        Some(('E', '\u{304}'))
                                    } else if u == 0x113 {
                                        Some(('e', '\u{304}'))
                                    } else {
                                        None
                                    }
                                } else {
                                    if u == 0x114 {
                                        Some(('E', '\u{306}'))
                                    } else if u == 0x115 {
                                        Some(('e', '\u{306}'))
                                    } else {
                                        None
                                    }
                                }
                            } else {
                                if u < 0x118 {
                                    if u == 0x116 {
                                        Some(('E', '\u{307}'))
                                    } else if u == 0x117 {
                                        Some(('e', '\u{307}'))
                                    } else {
                                        None
                                    }
                                } else {
                                    if u == 0x118 {
                                        Some(('E', '\u{328}'))
                                    } else if u == 0x119 {
                                        Some(('e', '\u{328}'))
                                    } else {
                                        None
                                    }
                                }
                            }
                        }
                    } else {
                        if u < 0x122 {
                            if u < 0x11E {
                                if u < 0x11C {
                                    if u == 0x11A {
                                        Some(('E', '\u{30C}'))
                                    } else if u == 0x11B {
                                        Some(('e', '\u{30C}'))
                                    } else {
                                        None
                                    }
                                } else {
                                    if u == 0x11C {
                                        Some(('G', '\u{302}'))
                                    } else if u == 0x11D {
                                        Some(('g', '\u{302}'))
                                    } else {
                                        None
                                    }
                                }
                            } else {
                                if u < 0x120 {
                                    if u == 0x11E {
                                        Some(('G', '\u{306}'))
                                    } else if u == 0x11F {
                                        Some(('g', '\u{306}'))
                                    } else {
                                        None
                                    }
                                } else {
                                    if u == 0x120 {
                                        Some(('G', '\u{307}'))
                                    } else if u == 0x121 {
                                        Some(('g', '\u{307}'))
                                    } else {
                                        None
                                    }
                                }
                            }
                        } else {
                            if u < 0x128 {
                                if u < 0x124 {
                                    if u == 0x122 {
                                        Some(('G', '\u{327}'))
                                    } else if u == 0x123 {
                                        Some(('g', '\u{327}'))
                                    } else {
                                        None
                                    }
                                } else {
                                    if u == 0x124 {
                                        Some(('H', '\u{302}'))
                                    } else if u == 0x125 {
                                        Some(('h', '\u{302}'))
                                    } else {
                                        None
                                    }
                                }
                            } else {
                                if u < 0x12A {
                                    if u == 0x128 {
                                        Some(('I', '\u{303}'))
                                    } else if u == 0x129 {
                                        Some(('i', '\u{303}'))
                                    } else {
                                        None
                                    }
                                } else {
                                    if u == 0x12A {
                                        Some(('I', '\u{304}'))
                                    } else if u == 0x12B {
                                        Some(('i', '\u{304}'))
                                    } else {
                                        None
                                    }
                                }
                            }
                        }
                    }
                } else {
                    if u < 0x143 {
                        if u < 0x136 {
                            if u < 0x12F {
                                if u == 0x12C {
                                    Some(('I', '\u{306}'))
                                } else if u == 0x12D {
                                    Some(('i', '\u{306}'))
                                } else if u == 0x12E {
                                    Some(('I', '\u{328}'))
                                } else {
                                    None
                                }
                            } else {
                                if u < 0x134 {
                                    if u == 0x12F {
                                        Some(('i', '\u{328}'))
                                    } else if u == 0x130 {
                                        Some(('I', '\u{307}'))
                                    } else {
                                        None
                                    }
                                } else {
                                    if u == 0x134 {
                                        Some(('J', '\u{302}'))
                                    } else if u == 0x135 {
                                        Some(('j', '\u{302}'))
                                    } else {
                                        None
                                    }
                                }
                            }
                        } else {
                            if u < 0x13B {
                                if u < 0x139 {
                                    if u == 0x136 {
                                        Some(('K', '\u{327}'))
                                    } else if u == 0x137 {
                                        Some(('k', '\u{327}'))
                                    } else {
                                        None
                                    }
                                } else {
                                    if u == 0x139 {
                                        Some(('L', '\u{301}'))
                                    } else if u == 0x13A {
                                        Some(('l', '\u{301}'))
                                    } else {
                                        None
                                    }
                                }
                            } else {
                                if u < 0x13D {
                                    if u == 0x13B {
                                        Some(('L', '\u{327}'))
                                    } else if u == 0x13C {
                                        Some(('l', '\u{327}'))
                                    } else {
                                        None
                                    }
                                } else {
                                    if u == 0x13D {
                                        Some(('L', '\u{30C}'))
                                    } else if u == 0x13E {
                                        Some(('l', '\u{30C}'))
                                    } else {
                                        None
                                    }
                                }
                            }
                        }
                    } else {
                        if u < 0x14E {
                            if u < 0x147 {
                                if u < 0x145 {
                                    if u == 0x143 {
                                        Some(('N', '\u{301}'))
                                    } else if u == 0x144 {
                                        Some(('n', '\u{301}'))
                                    } else {
                                        None
                                    }
                                } else {
                                    if u == 0x145 {
                                        Some(('N', '\u{327}'))
                                    } else if u == 0x146 {
                                        Some(('n', '\u{327}'))
                                    } else {
                                        None
                                    }
                                }
                            } else {
                                if u < 0x14C {
                                    if u == 0x147 {
                                        Some(('N', '\u{30C}'))
                                    } else if u == 0x148 {
                                        Some(('n', '\u{30C}'))
                                    } else {
                                        None
                                    }
                                } else {
                                    if u == 0x14C {
                                        Some(('O', '\u{304}'))
                                    } else if u == 0x14D {
                                        Some(('o', '\u{304}'))
                                    } else {
                                        None
                                    }
                                }
                            }
                        } else {
                            if u < 0x154 {
                                if u < 0x150 {
                                    if u == 0x14E {
                                        Some(('O', '\u{306}'))
                                    } else if u == 0x14F {
                                        Some(('o', '\u{306}'))
                                    } else {
                                        None
                                    }
                                } else {
                                    if u == 0x150 {
                                        Some(('O', '\u{30B}'))
                                    } else if u == 0x151 {
                                        Some(('o', '\u{30B}'))
                                    } else {
                                        None
                                    }
                                }
                            } else {
                                if u < 0x156 {
                                    if u == 0x154 {
                                        Some(('R', '\u{301}'))
                                    } else if u == 0x155 {
                                        Some(('r', '\u{301}'))
                                    } else {
                                        None
                                    }
                                } else {
                                    if u == 0x156 {
                                        Some(('R', '\u{327}'))
                                    } else if u == 0x157 {
                                        Some(('r', '\u{327}'))
                                    } else {
                                        None
                                    }
                                }
                            }
                        }
                    }
                }
            }
        } else {
            if u < 0x1E3 {
                if u < 0x179 {
                    if u < 0x169 {
                        if u < 0x15F {
                            if u < 0x15B {
                                if u == 0x158 {
                                    Some(('R', '\u{30C}'))
                                } else if u == 0x159 {
                                    Some(('r', '\u{30C}'))
                                } else if u == 0x15A {
                                    Some(('S', '\u{301}'))
                                } else {
                                    None
                                }
                            } else {
                                if u < 0x15D {
                                    if u == 0x15B {
                                        Some(('s', '\u{301}'))
                                    } else if u == 0x15C {
                                        Some(('S', '\u{302}'))
                                    } else {
                                        None
                                    }
                                } else {
                                    if u == 0x15D {
                                        Some(('s', '\u{302}'))
                                    } else if u == 0x15E {
                                        Some(('S', '\u{327}'))
                                    } else {
                                        None
                                    }
                                }
                            }
                        } else {
                            if u < 0x163 {
                                if u < 0x161 {
                                    if u == 0x15F {
                                        Some(('s', '\u{327}'))
                                    } else if u == 0x160 {
                                        Some(('S', '\u{30C}'))
                                    } else {
                                        None
                                    }
                                } else {
                                    if u == 0x161 {
                                        Some(('s', '\u{30C}'))
                                    } else if u == 0x162 {
                                        Some(('T', '\u{327}'))
                                    } else {
                                        None
                                    }
                                }
                            } else {
                                if u < 0x165 {
                                    if u == 0x163 {
                                        Some(('t', '\u{327}'))
                                    } else if u == 0x164 {
                                        Some(('T', '\u{30C}'))
                                    } else {
                                        None
                                    }
                                } else {
                                    if u == 0x165 {
                                        Some(('t', '\u{30C}'))
                                    } else if u == 0x168 {
                                        Some(('U', '\u{303}'))
                                    } else {
                                        None
                                    }
                                }
                            }
                        }
                    } else {
                        if u < 0x171 {
                            if u < 0x16D {
                                if u < 0x16B {
                                    if u == 0x169 {
                                        Some(('u', '\u{303}'))
                                    } else if u == 0x16A {
                                        Some(('U', '\u{304}'))
                                    } else {
                                        None
                                    }
                                } else {
                                    if u == 0x16B {
                                        Some(('u', '\u{304}'))
                                    } else if u == 0x16C {
                                        Some(('U', '\u{306}'))
                                    } else {
                                        None
                                    }
                                }
                            } else {
                                if u < 0x16F {
                                    if u == 0x16D {
                                        Some(('u', '\u{306}'))
                                    } else if u == 0x16E {
                                        Some(('U', '\u{30A}'))
                                    } else {
                                        None
                                    }
                                } else {
                                    if u == 0x16F {
                                        Some(('u', '\u{30A}'))
                                    } else if u == 0x170 {
                                        Some(('U', '\u{30B}'))
                                    } else {
                                        None
                                    }
                                }
                            }
                        } else {
                            if u < 0x175 {
                                if u < 0x173 {
                                    if u == 0x171 {
                                        Some(('u', '\u{30B}'))
                                    } else if u == 0x172 {
                                        Some(('U', '\u{328}'))
                                    } else {
                                        None
                                    }
                                } else {
                                    if u == 0x173 {
                                        Some(('u', '\u{328}'))
                                    } else if u == 0x174 {
                                        Some(('W', '\u{302}'))
                                    } else {
                                        None
                                    }
                                }
                            } else {
                                if u < 0x177 {
                                    if u == 0x175 {
                                        Some(('w', '\u{302}'))
                                    } else if u == 0x176 {
                                        Some(('Y', '\u{302}'))
                                    } else {
                                        None
                                    }
                                } else {
                                    if u == 0x177 {
                                        Some(('y', '\u{302}'))
                                    } else if u == 0x178 {
                                        Some(('Y', '\u{308}'))
                                    } else {
                                        None
                                    }
                                }
                            }
                        }
                    }
                } else {
                    if u < 0x1D2 {
                        if u < 0x1A1 {
                            if u < 0x17C {
                                if u == 0x179 {
                                    Some(('Z', '\u{301}'))
                                } else if u == 0x17A {
                                    Some(('z', '\u{301}'))
                                } else if u == 0x17B {
                                    Some(('Z', '\u{307}'))
                                } else {
                                    None
                                }
                            } else {
                                if u < 0x17E {
                                    if u == 0x17C {
                                        Some(('z', '\u{307}'))
                                    } else if u == 0x17D {
                                        Some(('Z', '\u{30C}'))
                                    } else {
                                        None
                                    }
                                } else {
                                    if u == 0x17E {
                                        Some(('z', '\u{30C}'))
                                    } else if u == 0x1A0 {
                                        Some(('O', '\u{31B}'))
                                    } else {
                                        None
                                    }
                                }
                            }
                        } else {
                            if u < 0x1CE {
                                if u < 0x1B0 {
                                    if u == 0x1A1 {
                                        Some(('o', '\u{31B}'))
                                    } else if u == 0x1AF {
                                        Some(('U', '\u{31B}'))
                                    } else {
                                        None
                                    }
                                } else {
                                    if u == 0x1B0 {
                                        Some(('u', '\u{31B}'))
                                    } else if u == 0x1CD {
                                        Some(('A', '\u{30C}'))
                                    } else {
                                        None
                                    }
                                }
                            } else {
                                if u < 0x1D0 {
                                    if u == 0x1CE {
                                        Some(('a', '\u{30C}'))
                                    } else if u == 0x1CF {
                                        Some(('I', '\u{30C}'))
                                    } else {
                                        None
                                    }
                                } else {
                                    if u == 0x1D0 {
                                        Some(('i', '\u{30C}'))
                                    } else if u == 0x1D1 {
                                        Some(('O', '\u{30C}'))
                                    } else {
                                        None
                                    }
                                }
                            }
                        }
                    } else {
                        if u < 0x1DA {
                            if u < 0x1D6 {
                                if u < 0x1D4 {
                                    if u == 0x1D2 {
                                        Some(('o', '\u{30C}'))
                                    } else if u == 0x1D3 {
                                        Some(('U', '\u{30C}'))
                                    } else {
                                        None
                                    }
                                } else {
                                    if u == 0x1D4 {
                                        Some(('u', '\u{30C}'))
                                    } else if u == 0x1D5 {
                                        Some(('\u{DC}', '\u{304}'))
                                    } else {
                                        None
                                    }
                                }
                            } else {
                                if u < 0x1D8 {
                                    if u == 0x1D6 {
                                        Some(('\u{FC}', '\u{304}'))
                                    } else if u == 0x1D7 {
                                        Some(('\u{DC}', '\u{301}'))
                                    } else {
                                        None
                                    }
                                } else {
                                    if u == 0x1D8 {
                                        Some(('\u{FC}', '\u{301}'))
                                    } else if u == 0x1D9 {
                                        Some(('\u{DC}', '\u{30C}'))
                                    } else {
                                        None
                                    }
                                }
                            }
                        } else {
                            if u < 0x1DF {
                                if u < 0x1DC {
                                    if u == 0x1DA {
                                        Some(('\u{FC}', '\u{30C}'))
                                    } else if u == 0x1DB {
                                        Some(('\u{DC}', '\u{300}'))
                                    } else {
                                        None
                                    }
                                } else {
                                    if u == 0x1DC {
                                        Some(('\u{FC}', '\u{300}'))
                                    } else if u == 0x1DE {
                                        Some(('\u{C4}', '\u{304}'))
                                    } else {
                                        None
                                    }
                                }
                            } else {
                                if u < 0x1E1 {
                                    if u == 0x1DF {
                                        Some(('\u{E4}', '\u{304}'))
                                    } else if u == 0x1E0 {
                                        Some(('\u{226}', '\u{304}'))
                                    } else {
                                        None
                                    }
                                } else {
                                    if u == 0x1E1 {
                                        Some(('\u{227}', '\u{304}'))
                                    } else if u == 0x1E2 {
                                        Some(('\u{C6}', '\u{304}'))
                                    } else {
                                        None
                                    }
                                }
                            }
                        }
                    }
                }
            } else {
                if u < 0x209 {
                    if u < 0x1F9 {
                        if u < 0x1EC {
                            if u < 0x1E8 {
                                if u == 0x1E3 {
                                    Some(('\u{E6}', '\u{304}'))
                                } else if u == 0x1E6 {
                                    Some(('G', '\u{30C}'))
                                } else if u == 0x1E7 {
                                    Some(('g', '\u{30C}'))
                                } else {
                                    None
                                }
                            } else {
                                if u < 0x1EA {
                                    if u == 0x1E8 {
                                        Some(('K', '\u{30C}'))
                                    } else if u == 0x1E9 {
                                        Some(('k', '\u{30C}'))
                                    } else {
                                        None
                                    }
                                } else {
                                    if u == 0x1EA {
                                        Some(('O', '\u{328}'))
                                    } else if u == 0x1EB {
                                        Some(('o', '\u{328}'))
                                    } else {
                                        None
                                    }
                                }
                            }
                        } else {
                            if u < 0x1F0 {
                                if u < 0x1EE {
                                    if u == 0x1EC {
                                        Some(('\u{1EA}', '\u{304}'))
                                    } else if u == 0x1ED {
                                        Some(('\u{1EB}', '\u{304}'))
                                    } else {
                                        None
                                    }
                                } else {
                                    if u == 0x1EE {
                                        Some(('\u{1B7}', '\u{30C}'))
                                    } else if u == 0x1EF {
                                        Some(('\u{292}', '\u{30C}'))
                                    } else {
                                        None
                                    }
                                }
                            } else {
                                if u < 0x1F5 {
                                    if u == 0x1F0 {
                                        Some(('j', '\u{30C}'))
                                    } else if u == 0x1F4 {
                                        Some(('G', '\u{301}'))
                                    } else {
                                        None
                                    }
                                } else {
                                    if u == 0x1F5 {
                                        Some(('g', '\u{301}'))
                                    } else if u == 0x1F8 {
                                        Some(('N', '\u{300}'))
                                    } else {
                                        None
                                    }
                                }
                            }
                        }
                    } else {
                        if u < 0x201 {
                            if u < 0x1FD {
                                if u < 0x1FB {
                                    if u == 0x1F9 {
                                        Some(('n', '\u{300}'))
                                    } else if u == 0x1FA {
                                        Some(('\u{C5}', '\u{301}'))
                                    } else {
                                        None
                                    }
                                } else {
                                    if u == 0x1FB {
                                        Some(('\u{E5}', '\u{301}'))
                                    } else if u == 0x1FC {
                                        Some(('\u{C6}', '\u{301}'))
                                    } else {
                                        None
                                    }
                                }
                            } else {
                                if u < 0x1FF {
                                    if u == 0x1FD {
                                        Some(('\u{E6}', '\u{301}'))
                                    } else if u == 0x1FE {
                                        Some(('\u{D8}', '\u{301}'))
                                    } else {
                                        None
                                    }
                                } else {
                                    if u == 0x1FF {
                                        Some(('\u{F8}', '\u{301}'))
                                    } else if u == 0x200 {
                                        Some(('A', '\u{30F}'))
                                    } else {
                                        None
                                    }
                                }
                            }
                        } else {
                            if u < 0x205 {
                                if u < 0x203 {
                                    if u == 0x201 {
                                        Some(('a', '\u{30F}'))
                                    } else if u == 0x202 {
                                        Some(('A', '\u{311}'))
                                    } else {
                                        None
                                    }
                                } else {
                                    if u == 0x203 {
                                        Some(('a', '\u{311}'))
                                    } else if u == 0x204 {
                                        Some(('E', '\u{30F}'))
                                    } else {
                                        None
                                    }
                                }
                            } else {
                                if u < 0x207 {
                                    if u == 0x205 {
                                        Some(('e', '\u{30F}'))
                                    } else if u == 0x206 {
                                        Some(('E', '\u{311}'))
                                    } else {
                                        None
                                    }
                                } else {
                                    if u == 0x207 {
                                        Some(('e', '\u{311}'))
                                    } else if u == 0x208 {
                                        Some(('I', '\u{30F}'))
                                    } else {
                                        None
                                    }
                                }
                            }
                        }
                    }
                } else {
                    if u < 0x219 {
                        if u < 0x211 {
                            if u < 0x20D {
                                if u < 0x20B {
                                    if u == 0x209 {
                                        Some(('i', '\u{30F}'))
                                    } else if u == 0x20A {
                                        Some(('I', '\u{311}'))
                                    } else {
                                        None
                                    }
                                } else {
                                    if u == 0x20B {
                                        Some(('i', '\u{311}'))
                                    } else if u == 0x20C {
                                        Some(('O', '\u{30F}'))
                                    } else {
                                        None
                                    }
                                }
                            } else {
                                if u < 0x20F {
                                    if u == 0x20D {
                                        Some(('o', '\u{30F}'))
                                    } else if u == 0x20E {
                                        Some(('O', '\u{311}'))
                                    } else {
                                        None
                                    }
                                } else {
                                    if u == 0x20F {
                                        Some(('o', '\u{311}'))
                                    } else if u == 0x210 {
                                        Some(('R', '\u{30F}'))
                                    } else {
                                        None
                                    }
                                }
                            }
                        } else {
                            if u < 0x215 {
                                if u < 0x213 {
                                    if u == 0x211 {
                                        Some(('r', '\u{30F}'))
                                    } else if u == 0x212 {
                                        Some(('R', '\u{311}'))
                                    } else {
                                        None
                                    }
                                } else {
                                    if u == 0x213 {
                                        Some(('r', '\u{311}'))
                                    } else if u == 0x214 {
                                        Some(('U', '\u{30F}'))
                                    } else {
                                        None
                                    }
                                }
                            } else {
                                if u < 0x217 {
                                    if u == 0x215 {
                                        Some(('u', '\u{30F}'))
                                    } else if u == 0x216 {
                                        Some(('U', '\u{311}'))
                                    } else {
                                        None
                                    }
                                } else {
                                    if u == 0x217 {
                                        Some(('u', '\u{311}'))
                                    } else if u == 0x218 {
                                        Some(('S', '\u{326}'))
                                    } else {
                                        None
                                    }
                                }
                            }
                        }
                    } else {
                        if u < 0x229 {
                            if u < 0x21F {
                                if u < 0x21B {
                                    if u == 0x219 {
                                        Some(('s', '\u{326}'))
                                    } else if u == 0x21A {
                                        Some(('T', '\u{326}'))
                                    } else {
                                        None
                                    }
                                } else {
                                    if u == 0x21B {
                                        Some(('t', '\u{326}'))
                                    } else if u == 0x21E {
                                        Some(('H', '\u{30C}'))
                                    } else {
                                        None
                                    }
                                }
                            } else {
                                if u < 0x227 {
                                    if u == 0x21F {
                                        Some(('h', '\u{30C}'))
                                    } else if u == 0x226 {
                                        Some(('A', '\u{307}'))
                                    } else {
                                        None
                                    }
                                } else {
                                    if u == 0x227 {
                                        Some(('a', '\u{307}'))
                                    } else if u == 0x228 {
                                        Some(('E', '\u{327}'))
                                    } else {
                                        None
                                    }
                                }
                            }
                        } else {
                            if u < 0x22D {
                                if u < 0x22B {
                                    if u == 0x229 {
                                        Some(('e', '\u{327}'))
                                    } else if u == 0x22A {
                                        Some(('\u{D6}', '\u{304}'))
                                    } else {
                                        None
                                    }
                                } else {
                                    if u == 0x22B {
                                        Some(('\u{F6}', '\u{304}'))
                                    } else if u == 0x22C {
                                        Some(('\u{D5}', '\u{304}'))
                                    } else {
                                        None
                                    }
                                }
                            } else {
                                if u < 0x22F {
                                    if u == 0x22D {
                                        Some(('\u{F5}', '\u{304}'))
                                    } else if u == 0x22E {
                                        Some(('O', '\u{307}'))
                                    } else {
                                        None
                                    }
                                } else {
                                    if u == 0x22F {
                                        Some(('o', '\u{307}'))
                                    } else if u == 0x230 {
                                        Some(('\u{22E}', '\u{304}'))
                                    } else {
                                        None
                                    }
                                }
                            }
                        }
                    }
                }
            }
        }
    } else {
        if u < 0x1E78 {
            if u < 0x1E3A {
                if u < 0x1E1B {
                    if u < 0x1E0B {
                        if u < 0x1E03 {
                            if u < 0x344 {
                                if u == 0x231 {
                                    Some(('\u{22F}', '\u{304}'))
                                } else if u == 0x232 {
                                    Some(('Y', '\u{304}'))
                                } else if u == 0x233 {
                                    Some(('y', '\u{304}'))
                                } else {
                                    None
                                }
                            } else {
                                if u < 0x1E01 {
                                    if u == 0x344 {
                                        Some(('\u{308}', '\u{301}'))
                                    } else if u == 0x1E00 {
                                        Some(('A', '\u{325}'))
                                    } else {
                                        None
                                    }
                                } else {
                                    if u == 0x1E01 {
                                        Some(('a', '\u{325}'))
                                    } else if u == 0x1E02 {
                                        Some(('B', '\u{307}'))
                                    } else {
                                        None
                                    }
                                }
                            }
                        } else {
                            if u < 0x1E07 {
                                if u < 0x1E05 {
                                    if u == 0x1E03 {
                                        Some(('b', '\u{307}'))
                                    } else if u == 0x1E04 {
                                        Some(('B', '\u{323}'))
                                    } else {
                                        None
                                    }
                                } else {
                                    if u == 0x1E05 {
                                        Some(('b', '\u{323}'))
                                    } else if u == 0x1E06 {
                                        Some(('B', '\u{331}'))
                                    } else {
                                        None
                                    }
                                }
                            } else {
                                if u < 0x1E09 {
                                    if u == 0x1E07 {
                                        Some(('b', '\u{331}'))
                                    } else if u == 0x1E08 {
                                        Some(('\u{C7}', '\u{301}'))
                                    } else {
                                        None
                                    }
                                } else {
                                    if u == 0x1E09 {
                                        Some(('\u{E7}', '\u{301}'))
                                    } else if u == 0x1E0A {
                                        Some(('D', '\u{307}'))
                                    } else {
                                        None
                                    }
                                }
                            }
                        }
                    } else {
                        if u < 0x1E13 {
                            if u < 0x1E0F {
                                if u < 0x1E0D {
                                    if u == 0x1E0B {
                                        Some(('d', '\u{307}'))
                                    } else if u == 0x1E0C {
                                        Some(('D', '\u{323}'))
                                    } else {
                                        None
                                    }
                                } else {
                                    if u == 0x1E0D {
                                        Some(('d', '\u{323}'))
                                    } else if u == 0x1E0E {
                                        Some(('D', '\u{331}'))
                                    } else {
                                        None
                                    }
                                }
                            } else {
                                if u < 0x1E11 {
                                    if u == 0x1E0F {
                                        Some(('d', '\u{331}'))
                                    } else if u == 0x1E10 {
                                        Some(('D', '\u{327}'))
                                    } else {
                                        None
                                    }
                                } else {
                                    if u == 0x1E11 {
                                        Some(('d', '\u{327}'))
                                    } else if u == 0x1E12 {
                                        Some(('D', '\u{32D}'))
                                    } else {
                                        None
                                    }
                                }
                            }
                        } else {
                            if u < 0x1E17 {
                                if u < 0x1E15 {
                                    if u == 0x1E13 {
                                        Some(('d', '\u{32D}'))
                                    } else if u == 0x1E14 {
                                        Some(('\u{112}', '\u{300}'))
                                    } else {
                                        None
                                    }
                                } else {
                                    if u == 0x1E15 {
                                        Some(('\u{113}', '\u{300}'))
                                    } else if u == 0x1E16 {
                                        Some(('\u{112}', '\u{301}'))
                                    } else {
                                        None
                                    }
                                }
                            } else {
                                if u < 0x1E19 {
                                    if u == 0x1E17 {
                                        Some(('\u{113}', '\u{301}'))
                                    } else if u == 0x1E18 {
                                        Some(('E', '\u{32D}'))
                                    } else {
                                        None
                                    }
                                } else {
                                    if u == 0x1E19 {
                                        Some(('e', '\u{32D}'))
                                    } else if u == 0x1E1A {
                                        Some(('E', '\u{330}'))
                                    } else {
                                        None
                                    }
                                }
                            }
                        }
                    }
                } else {
                    if u < 0x1E2A {
                        if u < 0x1E22 {
                            if u < 0x1E1E {
                                if u == 0x1E1B {
                                    Some(('e', '\u{330}'))
                                } else if u == 0x1E1C {
                                    Some(('\u{228}', '\u{306}'))
                                } else if u == 0x1E1D {
                                    Some(('\u{229}', '\u{306}'))
                                } else {
                                    None
                                }
                            } else {
                                if u < 0x1E20 {
                                    if u == 0x1E1E {
                                        Some(('F', '\u{307}'))
                                    } else if u == 0x1E1F {
                                        Some(('f', '\u{307}'))
                                    } else {
                                        None
                                    }
                                } else {
                                    if u == 0x1E20 {
                                        Some(('G', '\u{304}'))
                                    } else if u == 0x1E21 {
                                        Some(('g', '\u{304}'))
                                    } else {
                                        None
                                    }
                                }
                            }
                        } else {
                            if u < 0x1E26 {
                                if u < 0x1E24 {
                                    if u == 0x1E22 {
                                        Some(('H', '\u{307}'))
                                    } else if u == 0x1E23 {
                                        Some(('h', '\u{307}'))
                                    } else {
                                        None
                                    }
                                } else {
                                    if u == 0x1E24 {
                                        Some(('H', '\u{323}'))
                                    } else if u == 0x1E25 {
                                        Some(('h', '\u{323}'))
                                    } else {
                                        None
                                    }
                                }
                            } else {
                                if u < 0x1E28 {
                                    if u == 0x1E26 {
                                        Some(('H', '\u{308}'))
                                    } else if u == 0x1E27 {
                                        Some(('h', '\u{308}'))
                                    } else {
                                        None
                                    }
                                } else {
                                    if u == 0x1E28 {
                                        Some(('H', '\u{327}'))
                                    } else if u == 0x1E29 {
                                        Some(('h', '\u{327}'))
                                    } else {
                                        None
                                    }
                                }
                            }
                        }
                    } else {
                        if u < 0x1E32 {
                            if u < 0x1E2E {
                                if u < 0x1E2C {
                                    if u == 0x1E2A {
                                        Some(('H', '\u{32E}'))
                                    } else if u == 0x1E2B {
                                        Some(('h', '\u{32E}'))
                                    } else {
                                        None
                                    }
                                } else {
                                    if u == 0x1E2C {
                                        Some(('I', '\u{330}'))
                                    } else if u == 0x1E2D {
                                        Some(('i', '\u{330}'))
                                    } else {
                                        None
                                    }
                                }
                            } else {
                                if u < 0x1E30 {
                                    if u == 0x1E2E {
                                        Some(('\u{CF}', '\u{301}'))
                                    } else if u == 0x1E2F {
                                        Some(('\u{EF}', '\u{301}'))
                                    } else {
                                        None
                                    }
                                } else {
                                    if u == 0x1E30 {
                                        Some(('K', '\u{301}'))
                                    } else if u == 0x1E31 {
                                        Some(('k', '\u{301}'))
                                    } else {
                                        None
                                    }
                                }
                            }
                        } else {
                            if u < 0x1E36 {
                                if u < 0x1E34 {
                                    if u == 0x1E32 {
                                        Some(('K', '\u{323}'))
                                    } else if u == 0x1E33 {
                                        Some(('k', '\u{323}'))
                                    } else {
                                        None
                                    }
                                } else {
                                    if u == 0x1E34 {
                                        Some(('K', '\u{331}'))
                                    } else if u == 0x1E35 {
                                        Some(('k', '\u{331}'))
                                    } else {
                                        None
                                    }
                                }
                            } else {
                                if u < 0x1E38 {
                                    if u == 0x1E36 {
                                        Some(('L', '\u{323}'))
                                    } else if u == 0x1E37 {
                                        Some(('l', '\u{323}'))
                                    } else {
                                        None
                                    }
                                } else {
                                    if u == 0x1E38 {
                                        Some(('\u{1E36}', '\u{304}'))
                                    } else if u == 0x1E39 {
                                        Some(('\u{1E37}', '\u{304}'))
                                    } else {
                                        None
                                    }
                                }
                            }
                        }
                    }
                }
            } else {
                if u < 0x1E59 {
                    if u < 0x1E49 {
                        if u < 0x1E41 {
                            if u < 0x1E3D {
                                if u == 0x1E3A {
                                    Some(('L', '\u{331}'))
                                } else if u == 0x1E3B {
                                    Some(('l', '\u{331}'))
                                } else if u == 0x1E3C {
                                    Some(('L', '\u{32D}'))
                                } else {
                                    None
                                }
                            } else {
                                if u < 0x1E3F {
                                    if u == 0x1E3D {
                                        Some(('l', '\u{32D}'))
                                    } else if u == 0x1E3E {
                                        Some(('M', '\u{301}'))
                                    } else {
                                        None
                                    }
                                } else {
                                    if u == 0x1E3F {
                                        Some(('m', '\u{301}'))
                                    } else if u == 0x1E40 {
                                        Some(('M', '\u{307}'))
                                    } else {
                                        None
                                    }
                                }
                            }
                        } else {
                            if u < 0x1E45 {
                                if u < 0x1E43 {
                                    if u == 0x1E41 {
                                        Some(('m', '\u{307}'))
                                    } else if u == 0x1E42 {
                                        Some(('M', '\u{323}'))
                                    } else {
                                        None
                                    }
                                } else {
                                    if u == 0x1E43 {
                                        Some(('m', '\u{323}'))
                                    } else if u == 0x1E44 {
                                        Some(('N', '\u{307}'))
                                    } else {
                                        None
                                    }
                                }
                            } else {
                                if u < 0x1E47 {
                                    if u == 0x1E45 {
                                        Some(('n', '\u{307}'))
                                    } else if u == 0x1E46 {
                                        Some(('N', '\u{323}'))
                                    } else {
                                        None
                                    }
                                } else {
                                    if u == 0x1E47 {
                                        Some(('n', '\u{323}'))
                                    } else if u == 0x1E48 {
                                        Some(('N', '\u{331}'))
                                    } else {
                                        None
                                    }
                                }
                            }
                        }
                    } else {
                        if u < 0x1E51 {
                            if u < 0x1E4D {
                                if u < 0x1E4B {
                                    if u == 0x1E49 {
                                        Some(('n', '\u{331}'))
                                    } else if u == 0x1E4A {
                                        Some(('N', '\u{32D}'))
                                    } else {
                                        None
                                    }
                                } else {
                                    if u == 0x1E4B {
                                        Some(('n', '\u{32D}'))
                                    } else if u == 0x1E4C {
                                        Some(('\u{D5}', '\u{301}'))
                                    } else {
                                        None
                                    }
                                }
                            } else {
                                if u < 0x1E4F {
                                    if u == 0x1E4D {
                                        Some(('\u{F5}', '\u{301}'))
                                    } else if u == 0x1E4E {
                                        Some(('\u{D5}', '\u{308}'))
                                    } else {
                                        None
                                    }
                                } else {
                                    if u == 0x1E4F {
                                        Some(('\u{F5}', '\u{308}'))
                                    } else if u == 0x1E50 {
                                        Some(('\u{14C}', '\u{300}'))
                                    } else {
                                        None
                                    }
                                }
                            }
                        } else {
                            if u < 0x1E55 {
                                if u < 0x1E53 {
                                    if u == 0x1E51 {
                                        Some(('\u{14D}', '\u{300}'))
                                    } else if u == 0x1E52 {
                                        Some(('\u{14C}', '\u{301}'))
                                    } else {
                                        None
                                    }
                                } else {
                                    if u == 0x1E53 {
                                        Some(('\u{14D}', '\u{301}'))
                                    } else if u == 0x1E54 {
                                        Some(('P', '\u{301}'))
                                    } else {
                                        None
                                    }
                                }
                            } else {
                                if u < 0x1E57 {
                                    if u == 0x1E55 {
                                        Some(('p', '\u{301}'))
                                    } else if u == 0x1E56 {
                                        Some(('P', '\u{307}'))
                                    } else {
                                        None
                                    }
                                } else {
                                    if u == 0x1E57 {
                                        Some(('p', '\u{307}'))
                                    } else if u == 0x1E58 {
                                        Some(('R', '\u{307}'))
                                    } else {
                                        None
                                    }
                                }
                            }
                        }
                    }
                } else {
                    if u < 0x1E68 {
                        if u < 0x1E60 {
                            if u < 0x1E5C {
                                if u == 0x1E59 {
                                    Some(('r', '\u{307}'))
                                } else if u == 0x1E5A {
                                    Some(('R', '\u{323}'))
                                } else if u == 0x1E5B {
                                    Some(('r', '\u{323}'))
                                } else {
                                    None
                                }
                            } else {
                                if u < 0x1E5E {
                                    if u == 0x1E5C {
                                        Some(('\u{1E5A}', '\u{304}'))
                                    } else if u == 0x1E5D {
                                        Some(('\u{1E5B}', '\u{304}'))
                                    } else {
                                        None
                                    }
                                } else {
                                    if u == 0x1E5E {
                                        Some(('R', '\u{331}'))
                                    } else if u == 0x1E5F {
                                        Some(('r', '\u{331}'))
                                    } else {
                                        None
                                    }
                                }
                            }
                        } else {
                            if u < 0x1E64 {
                                if u < 0x1E62 {
                                    if u == 0x1E60 {
                                        Some(('S', '\u{307}'))
                                    } else if u == 0x1E61 {
                                        Some(('s', '\u{307}'))
                                    } else {
                                        None
                                    }
                                } else {
                                    if u == 0x1E62 {
                                        Some(('S', '\u{323}'))
                                    } else if u == 0x1E63 {
                                        Some(('s', '\u{323}'))
                                    } else {
                                        None
                                    }
                                }
                            } else {
                                if u < 0x1E66 {
                                    if u == 0x1E64 {
                                        Some(('\u{15A}', '\u{307}'))
                                    } else if u == 0x1E65 {
                                        Some(('\u{15B}', '\u{307}'))
                                    } else {
                                        None
                                    }
                                } else {
                                    if u == 0x1E66 {
                                        Some(('\u{160}', '\u{307}'))
                                    } else if u == 0x1E67 {
                                        Some(('\u{161}', '\u{307}'))
                                    } else {
                                        None
                                    }
                                }
                            }
                        }
                    } else {
                        if u < 0x1E70 {
                            if u < 0x1E6C {
                                if u < 0x1E6A {
                                    if u == 0x1E68 {
                                        Some(('\u{1E62}', '\u{307}'))
                                    } else if u == 0x1E69 {
                                        Some(('\u{1E63}', '\u{307}'))
                                    } else {
                                        None
                                    }
                                } else {
                                    if u == 0x1E6A {
                                        Some(('T', '\u{307}'))
                                    } else if u == 0x1E6B {
                                        Some(('t', '\u{307}'))
                                    } else {
                                        None
                                    }
                                }
                            } else {
                                if u < 0x1E6E {
                                    if u == 0x1E6C {
                                        Some(('T', '\u{323}'))
                                    } else if u == 0x1E6D {
                                        Some(('t', '\u{323}'))
                                    } else {
                                        None
                                    }
                                } else {
                                    if u == 0x1E6E {
                                        Some(('T', '\u{331}'))
                                    } else if u == 0x1E6F {
                                        Some(('t', '\u{331}'))
                                    } else {
                                        None
                                    }
                                }
                            }
                        } else {
                            if u < 0x1E74 {
                                if u < 0x1E72 {
                                    if u == 0x1E70 {
                                        Some(('T', '\u{32D}'))
                                    } else if u == 0x1E71 {
                                        Some(('t', '\u{32D}'))
                                    } else {
                                        None
                                    }
                                } else {
                                    if u == 0x1E72 {
                                        Some(('U', '\u{324}'))
                                    } else if u == 0x1E73 {
                                        Some(('u', '\u{324}'))
                                    } else {
                                        None
                                    }
                                }
                            } else {
                                if u < 0x1E76 {
                                    if u == 0x1E74 {
                                        Some(('U', '\u{330}'))
                                    } else if u == 0x1E75 {
                                        Some(('u', '\u{330}'))
                                    } else {
                                        None
                                    }
                                } else {
                                    if u == 0x1E76 {
                                        Some(('U', '\u{32D}'))
                                    } else if u == 0x1E77 {
                                        Some(('u', '\u{32D}'))
                                    } else {
                                        None
                                    }
                                }
                            }
                        }
                    }
                }
            }
        } else {
            if u < 0x1EBB {
                if u < 0x1E97 {
                    if u < 0x1E87 {
                        if u < 0x1E7F {
                            if u < 0x1E7B {
                                if u == 0x1E78 {
                                    Some(('\u{168}', '\u{301}'))
                                } else if u == 0x1E79 {
                                    Some(('\u{169}', '\u{301}'))
                                } else if u == 0x1E7A {
                                    Some(('\u{16A}', '\u{308}'))
                                } else {
                                    None
                                }
                            } else {
                                if u < 0x1E7D {
                                    if u == 0x1E7B {
                                        Some(('\u{16B}', '\u{308}'))
                                    } else if u == 0x1E7C {
                                        Some(('V', '\u{303}'))
                                    } else {
                                        None
                                    }
                                } else {
                                    if u == 0x1E7D {
                                        Some(('v', '\u{303}'))
                                    } else if u == 0x1E7E {
                                        Some(('V', '\u{323}'))
                                    } else {
                                        None
                                    }
                                }
                            }
                        } else {
                            if u < 0x1E83 {
                                if u < 0x1E81 {
                                    if u == 0x1E7F {
                                        Some(('v', '\u{323}'))
                                    } else if u == 0x1E80 {
                                        Some(('W', '\u{300}'))
                                    } else {
                                        None
                                    }
                                } else {
                                    if u == 0x1E81 {
                                        Some(('w', '\u{300}'))
                                    } else if u == 0x1E82 {
                                        Some(('W', '\u{301}'))
                                    } else {
                                        None
                                    }
                                }
                            } else {
                                if u < 0x1E85 {
                                    if u == 0x1E83 {
                                        Some(('w', '\u{301}'))
                                    } else if u == 0x1E84 {
                                        Some(('W', '\u{308}'))
                                    } else {
                                        None
                                    }
                                } else {
                                    if u == 0x1E85 {
                                        Some(('w', '\u{308}'))
                                    } else if u == 0x1E86 {
                                        Some(('W', '\u{307}'))
                                    } else {
                                        None
                                    }
                                }
                            }
                        }
                    } else {
                        if u < 0x1E8F {
                            if u < 0x1E8B {
                                if u < 0x1E89 {
                                    if u == 0x1E87 {
                                        Some(('w', '\u{307}'))
                                    } else if u == 0x1E88 {
                                        Some(('W', '\u{323}'))
                                    } else {
                                        None
                                    }
                                } else {
                                    if u == 0x1E89 {
                                        Some(('w', '\u{323}'))
                                    } else if u == 0x1E8A {
                                        Some(('X', '\u{307}'))
                                    } else {
                                        None
                                    }
                                }
                            } else {
                                if u < 0x1E8D {
                                    if u == 0x1E8B {
                                        Some(('x', '\u{307}'))
                                    } else if u == 0x1E8C {
                                        Some(('X', '\u{308}'))
                                    } else {
                                        None
                                    }
                                } else {
                                    if u == 0x1E8D {
                                        Some(('x', '\u{308}'))
                                    } else if u == 0x1E8E {
                                        Some(('Y', '\u{307}'))
                                    } else {
                                        None
                                    }
                                }
                            }
                        } else {
                            if u < 0x1E93 {
                                if u < 0x1E91 {
                                    if u == 0x1E8F {
                                        Some(('y', '\u{307}'))
                                    } else if u == 0x1E90 {
                                        Some(('Z', '\u{302}'))
                                    } else {
                                        None
                                    }
                                } else {
                                    if u == 0x1E91 {
                                        Some(('z', '\u{302}'))
                                    } else if u == 0x1E92 {
                                        Some(('Z', '\u{323}'))
                                    } else {
                                        None
                                    }
                                }
                            } else {
                                if u < 0x1E95 {
                                    if u == 0x1E93 {
                                        Some(('z', '\u{323}'))
                                    } else if u == 0x1E94 {
                                        Some(('Z', '\u{331}'))
                                    } else {
                                        None
                                    }
                                } else {
                                    if u == 0x1E95 {
                                        Some(('z', '\u{331}'))
                                    } else if u == 0x1E96 {
                                        Some(('h', '\u{331}'))
                                    } else {
                                        None
                                    }
                                }
                            }
                        }
                    }
                } else {
                    if u < 0x1EAB {
                        if u < 0x1EA3 {
                            if u < 0x1E9B {
                                if u == 0x1E97 {
                                    Some(('t', '\u{308}'))
                                } else if u == 0x1E98 {
                                    Some(('w', '\u{30A}'))
                                } else if u == 0x1E99 {
                                    Some(('y', '\u{30A}'))
                                } else {
                                    None
                                }
                            } else {
                                if u < 0x1EA1 {
                                    if u == 0x1E9B {
                                        Some(('\u{17F}', '\u{307}'))
                                    } else if u == 0x1EA0 {
                                        Some(('A', '\u{323}'))
                                    } else {
                                        None
                                    }
                                } else {
                                    if u == 0x1EA1 {
                                        Some(('a', '\u{323}'))
                                    } else if u == 0x1EA2 {
                                        Some(('A', '\u{309}'))
                                    } else {
                                        None
                                    }
                                }
                            }
                        } else {
                            if u < 0x1EA7 {
                                if u < 0x1EA5 {
                                    if u == 0x1EA3 {
                                        Some(('a', '\u{309}'))
                                    } else if u == 0x1EA4 {
                                        Some(('\u{C2}', '\u{301}'))
                                    } else {
                                        None
                                    }
                                } else {
                                    if u == 0x1EA5 {
                                        Some(('\u{E2}', '\u{301}'))
                                    } else if u == 0x1EA6 {
                                        Some(('\u{C2}', '\u{300}'))
                                    } else {
                                        None
                                    }
                                }
                            } else {
                                if u < 0x1EA9 {
                                    if u == 0x1EA7 {
                                        Some(('\u{E2}', '\u{300}'))
                                    } else if u == 0x1EA8 {
                                        Some(('\u{C2}', '\u{309}'))
                                    } else {
                                        None
                                    }
                                } else {
                                    if u == 0x1EA9 {
                                        Some(('\u{E2}', '\u{309}'))
                                    } else if u == 0x1EAA {
                                        Some(('\u{C2}', '\u{303}'))
                                    } else {
                                        None
                                    }
                                }
                            }
                        }
                    } else {
                        if u < 0x1EB3 {
                            if u < 0x1EAF {
                                if u < 0x1EAD {
                                    if u == 0x1EAB {
                                        Some(('\u{E2}', '\u{303}'))
                                    } else if u == 0x1EAC {
                                        Some(('\u{1EA0}', '\u{302}'))
                                    } else {
                                        None
                                    }
                                } else {
                                    if u == 0x1EAD {
                                        Some(('\u{1EA1}', '\u{302}'))
                                    } else if u == 0x1EAE {
                                        Some(('\u{102}', '\u{301}'))
                                    } else {
                                        None
                                    }
                                }
                            } else {
                                if u < 0x1EB1 {
                                    if u == 0x1EAF {
                                        Some(('\u{103}', '\u{301}'))
                                    } else if u == 0x1EB0 {
                                        Some(('\u{102}', '\u{300}'))
                                    } else {
                                        None
                                    }
                                } else {
                                    if u == 0x1EB1 {
                                        Some(('\u{103}', '\u{300}'))
                                    } else if u == 0x1EB2 {
                                        Some(('\u{102}', '\u{309}'))
                                    } else {
                                        None
                                    }
                                }
                            }
                        } else {
                            if u < 0x1EB7 {
                                if u < 0x1EB5 {
                                    if u == 0x1EB3 {
                                        Some(('\u{103}', '\u{309}'))
                                    } else if u == 0x1EB4 {
                                        Some(('\u{102}', '\u{303}'))
                                    } else {
                                        None
                                    }
                                } else {
                                    if u == 0x1EB5 {
                                        Some(('\u{103}', '\u{303}'))
                                    } else if u == 0x1EB6 {
                                        Some(('\u{1EA0}', '\u{306}'))
                                    } else {
                                        None
                                    }
                                }
                            } else {
                                if u < 0x1EB9 {
                                    if u == 0x1EB7 {
                                        Some(('\u{1EA1}', '\u{306}'))
                                    } else if u == 0x1EB8 {
                                        Some(('E', '\u{323}'))
                                    } else {
                                        None
                                    }
                                } else {
                                    if u == 0x1EB9 {
                                        Some(('e', '\u{323}'))
                                    } else if u == 0x1EBA {
                                        Some(('E', '\u{309}'))
                                    } else {
                                        None
                                    }
                                }
                            }
                        }
                    }
                }
            } else {
                if u < 0x1EDA {
                    if u < 0x1ECA {
                        if u < 0x1EC2 {
                            if u < 0x1EBE {
                                if u == 0x1EBB {
                                    Some(('e', '\u{309}'))
                                } else if u == 0x1EBC {
                                    Some(('E', '\u{303}'))
                                } else if u == 0x1EBD {
                                    Some(('e', '\u{303}'))
                                } else {
                                    None
                                }
                            } else {
                                if u < 0x1EC0 {
                                    if u == 0x1EBE {
                                        Some(('\u{CA}', '\u{301}'))
                                    } else if u == 0x1EBF {
                                        Some(('\u{EA}', '\u{301}'))
                                    } else {
                                        None
                                    }
                                } else {
                                    if u == 0x1EC0 {
                                        Some(('\u{CA}', '\u{300}'))
                                    } else if u == 0x1EC1 {
                                        Some(('\u{EA}', '\u{300}'))
                                    } else {
                                        None
                                    }
                                }
                            }
                        } else {
                            if u < 0x1EC6 {
                                if u < 0x1EC4 {
                                    if u == 0x1EC2 {
                                        Some(('\u{CA}', '\u{309}'))
                                    } else if u == 0x1EC3 {
                                        Some(('\u{EA}', '\u{309}'))
                                    } else {
                                        None
                                    }
                                } else {
                                    if u == 0x1EC4 {
                                        Some(('\u{CA}', '\u{303}'))
                                    } else if u == 0x1EC5 {
                                        Some(('\u{EA}', '\u{303}'))
                                    } else {
                                        None
                                    }
                                }
                            } else {
                                if u < 0x1EC8 {
                                    if u == 0x1EC6 {
                                        Some(('\u{1EB8}', '\u{302}'))
                                    } else if u == 0x1EC7 {
                                        Some(('\u{1EB9}', '\u{302}'))
                                    } else {
                                        None
                                    }
                                } else {
                                    if u == 0x1EC8 {
                                        Some(('I', '\u{309}'))
                                    } else if u == 0x1EC9 {
                                        Some(('i', '\u{309}'))
                                    } else {
                                        None
                                    }
                                }
                            }
                        }
                    } else {
                        if u < 0x1ED2 {
                            if u < 0x1ECE {
                                if u < 0x1ECC {
                                    if u == 0x1ECA {
                                        Some(('I', '\u{323}'))
                                    } else if u == 0x1ECB {
                                        Some(('i', '\u{323}'))
                                    } else {
                                        None
                                    }
                                } else {
                                    if u == 0x1ECC {
                                        Some(('O', '\u{323}'))
                                    } else if u == 0x1ECD {
                                        Some(('o', '\u{323}'))
                                    } else {
                                        None
                                    }
                                }
                            } else {
                                if u < 0x1ED0 {
                                    if u == 0x1ECE {
                                        Some(('O', '\u{309}'))
                                    } else if u == 0x1ECF {
                                        Some(('o', '\u{309}'))
                                    } else {
                                        None
                                    }
                                } else {
                                    if u == 0x1ED0 {
                                        Some(('\u{D4}', '\u{301}'))
                                    } else if u == 0x1ED1 {
                                        Some(('\u{F4}', '\u{301}'))
                                    } else {
                                        None
                                    }
                                }
                            }
                        } else {
                            if u < 0x1ED6 {
                                if u < 0x1ED4 {
                                    if u == 0x1ED2 {
                                        Some(('\u{D4}', '\u{300}'))
                                    } else if u == 0x1ED3 {
                                        Some(('\u{F4}', '\u{300}'))
                                    } else {
                                        None
                                    }
                                } else {
                                    if u == 0x1ED4 {
                                        Some(('\u{D4}', '\u{309}'))
                                    } else if u == 0x1ED5 {
                                        Some(('\u{F4}', '\u{309}'))
                                    } else {
                                        None
                                    }
                                }
                            } else {
                                if u < 0x1ED8 {
                                    if u == 0x1ED6 {
                                        Some(('\u{D4}', '\u{303}'))
                                    } else if u == 0x1ED7 {
                                        Some(('\u{F4}', '\u{303}'))
                                    } else {
                                        None
                                    }
                                } else {
                                    if u == 0x1ED8 {
                                        Some(('\u{1ECC}', '\u{302}'))
                                    } else if u == 0x1ED9 {
                                        Some(('\u{1ECD}', '\u{302}'))
                                    } else {
                                        None
                                    }
                                }
                            }
                        }
                    }
                } else {
                    if u < 0x1EEA {
                        if u < 0x1EE2 {
                            if u < 0x1EDE {
                                if u < 0x1EDC {
                                    if u == 0x1EDA {
                                        Some(('\u{1A0}', '\u{301}'))
                                    } else if u == 0x1EDB {
                                        Some(('\u{1A1}', '\u{301}'))
                                    } else {
                                        None
                                    }
                                } else {
                                    if u == 0x1EDC {
                                        Some(('\u{1A0}', '\u{300}'))
                                    } else if u == 0x1EDD {
                                        Some(('\u{1A1}', '\u{300}'))
                                    } else {
                                        None
                                    }
                                }
                            } else {
                                if u < 0x1EE0 {
                                    if u == 0x1EDE {
                                        Some(('\u{1A0}', '\u{309}'))
                                    } else if u == 0x1EDF {
                                        Some(('\u{1A1}', '\u{309}'))
                                    } else {
                                        None
                                    }
                                } else {
                                    if u == 0x1EE0 {
                                        Some(('\u{1A0}', '\u{303}'))
                                    } else if u == 0x1EE1 {
                                        Some(('\u{1A1}', '\u{303}'))
                                    } else {
                                        None
                                    }
                                }
                            }
                        } else {
                            if u < 0x1EE6 {
                                if u < 0x1EE4 {
                                    if u == 0x1EE2 {
                                        Some(('\u{1A0}', '\u{323}'))
                                    } else if u == 0x1EE3 {
                                        Some(('\u{1A1}', '\u{323}'))
                                    } else {
                                        None
                                    }
                                } else {
                                    if u == 0x1EE4 {
                                        Some(('U', '\u{323}'))
                                    } else if u == 0x1EE5 {
                                        Some(('u', '\u{323}'))
                                    } else {
                                        None
                                    }
                                }
                            } else {
                                if u < 0x1EE8 {
                                    if u == 0x1EE6 {
                                        Some(('U', '\u{309}'))
                                    } else if u == 0x1EE7 {
                                        Some(('u', '\u{309}'))
                                    } else {
                                        None
                                    }
                                } else {
                                    if u == 0x1EE8 {
                                        Some(('\u{1AF}', '\u{301}'))
                                    } else if u == 0x1EE9 {
                                        Some(('\u{1B0}', '\u{301}'))
                                    } else {
                                        None
                                    }
                                }
                            }
                        }
                    } else {
                        if u < 0x1EF2 {
                            if u < 0x1EEE {
                                if u < 0x1EEC {
                                    if u == 0x1EEA {
                                        Some(('\u{1AF}', '\u{300}'))
                                    } else if u == 0x1EEB {
                                        Some(('\u{1B0}', '\u{300}'))
                                    } else {
                                        None
                                    }
                                } else {
                                    if u == 0x1EEC {
                                        Some(('\u{1AF}', '\u{309}'))
                                    } else if u == 0x1EED {
                                        Some(('\u{1B0}', '\u{309}'))
                                    } else {
                                        None
                                    }
                                }
                            } else {
                                if u < 0x1EF0 {
                                    if u == 0x1EEE {
                                        Some(('\u{1AF}', '\u{303}'))
                                    } else if u == 0x1EEF {
                                        Some(('\u{1B0}', '\u{303}'))
                                    } else {
                                        None
                                    }
                                } else {
                                    if u == 0x1EF0 {
                                        Some(('\u{1AF}', '\u{323}'))
                                    } else if u == 0x1EF1 {
                                        Some(('\u{1B0}', '\u{323}'))
                                    } else {
                                        None
                                    }
                                }
                            }
                        } else {
                            if u < 0x1EF6 {
                                if u < 0x1EF4 {
                                    if u == 0x1EF2 {
                                        Some(('Y', '\u{300}'))
                                    } else if u == 0x1EF3 {
                                        Some(('y', '\u{300}'))
                                    } else {
                                        None
                                    }
                                } else {
                                    if u == 0x1EF4 {
                                        Some(('Y', '\u{323}'))
                                    } else if u == 0x1EF5 {
                                        Some(('y', '\u{323}'))
                                    } else {
                                        None
                                    }
                                }
                            } else {
                                if u < 0x1EF8 {
                                    if u == 0x1EF6 {
                                        Some(('Y', '\u{309}'))
                                    } else if u == 0x1EF7 {
                                        Some(('y', '\u{309}'))
                                    } else {
                                        None
                                    }
                                } else {
                                    if u == 0x1EF8 {
                                        Some(('Y', '\u{303}'))
                                    } else if u == 0x1EF9 {
                                        Some(('y', '\u{303}'))
                                    } else {
                                        None
                                    }
                                }
                            }
                        }
                    }
                }
            }
        }
    }
}

/// The one-character canonical decomposition of a combining mark, where it has one.
pub open spec fn canonical_single(c: char) -> Option<char> {
    let u = c as u32;
    if u == 0x340 {
        Some('\u{300}')
    } else if u == 0x341 {
        Some('\u{301}')
    } else if u == 0x343 {
        Some('\u{313}')
    } else {
        None
    }
}

/// The one-character canonical decomposition of a combining mark, where it has one.
fn canonical_single_of(c: char) -> (r: Option<char>)
    ensures
        r == canonical_single(c),
{
    let u = c as u32;
    if u == 0x340 {
        Some('\u{300}')
    } else if u == 0x341 {
        Some('\u{301}')
    } else if u == 0x343 {
        Some('\u{313}')
    } else {
        None
    }
}

/// The canonical combining class of a character.
pub open spec fn combining_class(c: char) -> u8 {
    let u = c as u32;
    if 0x300 <= u && u <= 0x314 {
        230
    } else if u == 0x315 {
        232
    } else if 0x316 <= u && u <= 0x319 {
        220
    } else if u == 0x31A {
        232
    } else if u == 0x31B {
        216
    } else if 0x31C <= u && u <= 0x320 {
        220
    } else if 0x321 <= u && u <= 0x322 {
        202
    } else if 0x323 <= u && u <= 0x326 {
        220
    } else if 0x327 <= u && u <= 0x328 {
        202
    } else if 0x329 <= u && u <= 0x333 {
        220
    } else if 0x334 <= u && u <= 0x338 {
        1
    } else if 0x339 <= u && u <= 0x33C {
        220
    } else if 0x33D <= u && u <= 0x344 {
        230
    } else if u == 0x345 {
        240
    } else if u == 0x346 {
        230
    } else if 0x347 <= u && u <= 0x349 {
        220
    } else if 0x34A <= u && u <= 0x34C {
        230
    } else if 0x34D <= u && u <= 0x34E {
        220
    } else if 0x350 <= u && u <= 0x352 {
        230
    } else if 0x353 <= u && u <= 0x356 {
        220
    } else if u == 0x357 {
        230
    } else if u == 0x358 {
        232
    } else if 0x359 <= u && u <= 0x35A {
        220
    } else if u == 0x35B {
        230
    } else if u == 0x35C {
        233
    } else if 0x35D <= u && u <= 0x35E {
        234
    } else if u == 0x35F {
        233
    } else if 0x360 <= u && u <= 0x361 {
        234
    } else if u == 0x362 {
        233
    } else if 0x363 <= u && u <= 0x36F {
        230
    } else {
        0
    }
}

/// The canonical combining class of a character.
pub fn combining_class_of(c: char) -> (r: u8)
    ensures
        r == combining_class(c),
{
    let u = c as u32;
    if 0x300 <= u && u <= 0x314 {
        230
    } else if u == 0x315 {
        232
    } else if 0x316 <= u && u <= 0x319 {
        220
    } else if u == 0x31A {
        232
    } else if u == 0x31B {
        216
    } else if 0x31C <= u && u <= 0x320 {
        220
    } else if 0x321 <= u && u <= 0x322 {
        202
    } else if 0x323 <= u && u <= 0x326 {
        220
    } else if 0x327 <= u && u <= 0x328 {
        202
    } else if 0x329 <= u && u <= 0x333 {
        220
    } else if 0x334 <= u && u <= 0x338 {
        1
    } else if 0x339 <= u && u <= 0x33C {
        220
    } else if 0x33D <= u && u <= 0x344 {
        230
    } else if u == 0x345 {
        240
    } else if u == 0x346 {
        230
    } else if 0x347 <= u && u <= 0x349 {
        220
    } else if 0x34A <= u && u <= 0x34C {
        230
    } else if 0x34D <= u && u <= 0x34E {
        220
    } else if 0x350 <= u && u <= 0x352 {
        230
    } else if 0x353 <= u && u <= 0x356 {
        220
    } else if u == 0x357 {
        230
    } else if u == 0x358 {
        232
    } else if 0x359 <= u && u <= 0x35A {
        220
    } else if u == 0x35B {
        230
    } else if u == 0x35C {
        233
    } else if 0x35D <= u && u <= 0x35E {
        234
    } else if u == 0x35F {
        233
    } else if 0x360 <= u && u <= 0x361 {
        234
    } else if u == 0x362 {
        233
    } else if 0x363 <= u && u <= 0x36F {
        230
    } else {
        0
    }
}

/// The compatibility decomposition of a character, where the table has one.
pub open spec fn compatibility_seq(c: char) -> Option<Seq<char>> {
    let u = c as u32;
    if u == 0xA0 {
        Some(seq!['\u{20}'])
    } else if u == 0xA8 {
        Some(seq!['\u{20}', '\u{308}'])
    } else if u == 0xAA {
        Some(seq!['a'])
    } else if u == 0xAF {
        Some(seq!['\u{20}', '\u{304}'])
    } else if u == 0xB2 {
        Some(seq!['2'])
    } else if u == 0xB3 {
        Some(seq!['3'])
    } else if u == 0xB4 {
        Some(seq!['\u{20}', '\u{301}'])
    } else if u == 0xB5 {
        Some(seq!['\u{3BC}'])
    } else if u == 0xB8 {
        Some(seq!['\u{20}', '\u{327}'])
    } else if u == 0xB9 {
        Some(seq!['1'])
    } else if u == 0xBA {
        Some(seq!['o'])
    } else if u == 0xBC {
        Some(seq!['1', '\u{2044}', '4'])
    } else if u == 0xBD {
        Some(seq!['1', '\u{2044}', '2'])
    } else if u == 0xBE {
        Some(seq!['3', '\u{2044}', '4'])
    } else if u == 0x2026 {
        Some(seq!['\u{2E}', '\u{2E}', '\u{2E}'])
    } else if u == 0x2122 {
        Some(seq!['T', 'M'])
    } else if u == 0xFB00 {
        Some(seq!['f', 'f'])
    } else if u == 0xFB01 {
        Some(seq!['f', 'i'])
    } else if u == 0xFB02 {
        Some(seq!['f', 'l'])
    } else if u == 0xFB03 {
        Some(seq!['f', 'f', 'i'])
    } else if u == 0xFB04 {
        Some(seq!['f', 'f', 'l'])
    } else if u == 0xFB06 {
        Some(seq!['s', 't'])
    } else if 0x2460 <= u <= 0x2468 {
        Some(seq![(((u - 0x2460) + 0x31) as u8) as char])
    } else if 0xFF01 <= u <= 0xFF5E {
        Some(seq![((u - 0xFEE0) as u8) as char])
    } else {
        None
    }
}

/// The compatibility decomposition of a character, where the table has one.
fn compatibility_seq_of(c: char) -> (r: Option<Vec<char>>)
    ensures
        match compatibility_seq(c) {
            Some(s) => r matches Some(v) && v@ == s,
            None => r is None,
        },
{
    let u = c as u32;
    if u == 0xA0 {
        Some(vec!['\u{20}'])
    } else if u == 0xA8 {
        Some(vec!['\u{20}', '\u{308}'])
    } else if u == 0xAA {
        Some(vec!['a'])
    } else if u == 0xAF {
        Some(vec!['\u{20}', '\u{304}'])
    } else if u == 0xB2 {
        Some(vec!['2'])
    } else if u == 0xB3 {
        Some(vec!['3'])
    } else if u == 0xB4 {
        Some(vec!['\u{20}', '\u{301}'])
    } else if u == 0xB5 {
        Some(vec!['\u{3BC}'])
    } else if u == 0xB8 {
        Some(vec!['\u{20}', '\u{327}'])
    } else if u == 0xB9 {
        Some(vec!['1'])
    } else if u == 0xBA {
        Some(vec!['o'])
    } else if u == 0xBC {
        Some(vec!['1', '\u{2044}', '4'])
    } else if u == 0xBD {
        Some(vec!['1', '\u{2044}', '2'])
    } else if u == 0xBE {
        Some(vec!['3', '\u{2044}', '4'])
    } else if u == 0x2026 {
        Some(vec!['\u{2E}', '\u{2E}', '\u{2E}'])
    } else if u == 0x2122 {
        Some(vec!['T', 'M'])
    } else if u == 0xFB00 {
        Some(vec!['f', 'f'])
    } else if u == 0xFB01 {
        Some(vec!['f', 'i'])
    } else if u == 0xFB02 {
        Some(vec!['f', 'l'])
    } else if u == 0xFB03 {
        Some(vec!['f', 'f', 'i'])
    } else if u == 0xFB04 {
        Some(vec!['f', 'f', 'l'])
    } else if u == 0xFB06 {
        Some(vec!['s', 't'])
    } else if 0x2460 <= u && u <= 0x2468 {
        Some(vec![(((u - 0x2460) + 0x31) as u8) as char])
    } else if 0xFF01 <= u && u <= 0xFF5E {
        Some(vec![((u - 0xFEE0) as u8) as char])
    } else {
        None
    }
}

/// The canonical decomposition of a character taken `depth` levels deep: the base of a
/// pair is decomposed again. The table's decompositions nest two levels at most, so
/// three levels reach the end.
pub open spec fn canonical_expand(c: char, depth: nat) -> Seq<char>
    decreases depth,
{
    if depth == 0 {
        seq![c]
    } else {
        match canonical_pair(c) {
            Some((b, m)) => canonical_expand(b, (depth - 1) as nat).push(m),
            None => match canonical_single(c) {
                Some(d) => canonical_expand(d, (depth - 1) as nat),
                None => seq![c],
            },
        }
    }
}

/// The full decomposition of one character: compatibility first where asked for, then
/// canonical.
pub open spec fn decompose_char(c: char, compat: bool) -> Seq<char> {
    if compat && compatibility_seq(c) is Some {
        compatibility_seq(c)->0
    } else {
        canonical_expand(c, 3)
    }
}

/// Every character decomposed, in order.
pub open spec fn decompose_all(s: Seq<char>, compat: bool) -> Seq<char>
    decreases s.len(),
{
    if s.len() == 0 {
        s
    } else {
        decompose_all(s.drop_last(), compat) + decompose_char(s.last(), compat)
    }
}

/// A mark put into place: behind every character before it whose combining class is
/// higher than its own.
pub open spec fn insert_mark(acc: Seq<char>, c: char) -> Seq<char>
    decreases acc.len(),
{
    if acc.len() > 0 && combining_class(acc.last()) > combining_class(c) {
        insert_mark(acc.drop_last(), c).push(acc.last())
    } else {
        acc.push(c)
    }
}

/// The canonical ordering: each run of marks sorted by combining class, marks of one
/// class keeping their order.
pub open spec fn canonical_order(s: Seq<char>) -> Seq<char>
    decreases s.len(),
{
    if s.len() == 0 {
        s
    } else if combining_class(s.last()) == 0 {
        canonical_order(s.drop_last()).push(s.last())
    } else {
        insert_mark(canonical_order(s.drop_last()), s.last())
    }
}

/// The first letter from `u` on, in U+00C0 to U+024F or U+1E00 to U+1EFF, whose
/// canonical decomposition is `a` then `b`: the primary composite of the pair.
pub open spec fn composite_from(a: char, b: char, u: u32) -> Option<char>
    decreases 0x1F00 - u,
{
    if u >= 0x1F00 {
        None
    } else if 0x250 <= u < 0x1E00 {
        composite_from(a, b, 0x1E00)
    } else if canonical_pair(u as char) == Some((a, b)) {
        Some(u as char)
    } else {
        composite_from(a, b, (u + 1) as u32)
    }
}

/// The primary composite of a pair, where the table has one.
pub open spec fn composite(a: char, b: char) -> Option<char> {
    composite_from(a, b, 0xC0)
}

/// The canonical composition state after some characters: the output so far, the
/// position of the last starter in it (or -1), and the combining class of the last
/// character appended.
pub open spec fn compose_state(s: Seq<char>) -> (Seq<char>, int, int)
    decreases s.len(),
{
    if s.len() == 0 {
        (Seq::empty(), -1, 0)
    } else {
        let (out, st, last) = compose_state(s.drop_last());
        let c = s.last();
        let k = combining_class(c) as int;
        if 0 <= st < out.len() && (last < k || last == 0) && composite(out[st], c) is Some {
            (out.update(st, composite(out[st], c)->0), st, last)
        } else {
            (out.push(c), if k == 0 { out.len() as int } else { st }, k)
        }
    }
}

/// The canonical composition of a decomposed text.
pub open spec fn compose(s: Seq<char>) -> Seq<char> {
    compose_state(s).0
}

/// NFD: canonical decomposition, then canonical ordering.
pub open spec fn spec_nfd(s: Seq<char>) -> Seq<char> {
    canonical_order(decompose_all(s, false))
}

/// NFKD: compatibility decomposition, then canonical ordering.
pub open spec fn spec_nfkd(s: Seq<char>) -> Seq<char> {
    canonical_order(decompose_all(s, true))
}

/// NFC: NFD, then canonical composition.
pub open spec fn spec_nfc(s: Seq<char>) -> Seq<char> {
    compose(spec_nfd(s))
}

/// NFKC: NFKD, then canonical composition.
pub open spec fn spec_nfkc(s: Seq<char>) -> Seq<char> {
    compose(spec_nfkd(s))
}

fn decompose_chars(cs: &Vec<char>, compat: bool) -> (r: Vec<char>)
    ensures
        r@ == decompose_all(cs@, compat),
{
    let mut r: Vec<char> = Vec::new();
    let mut i: usize = 0;
    while i < cs.len()
        invariant
            i <= cs@.len(),
            r@ == decompose_all(cs@.take(i as int), compat),
        decreases cs.len() - i,
    {
        let c = cs[i];
        assert(cs@.take(i + 1).drop_last() =~= cs@.take(i as int));
        let mut done = false;
        if compat {
            if let Some(v) = compatibility_seq_of(c) {
                let mut k: usize = 0;
                let ghost r0 = r@;
                while k < v.len()
                    invariant
                        k <= v@.len(),
                        r@ == r0 + v@.take(k as int),
                    decreases v.len() - k,
                {
                    r.push(v[k]);
                    assert(v@.take(k + 1) =~= v@.take(k as int).push(v@[k as int]));
                    k = k + 1;
                }
                assert(v@.take(k as int) =~= v@);
                done = true;
            }
        }
        if !done {
            push_expansion(&mut r, c, 3);
        }
        i = i + 1;
    }
    assert(cs@.take(i as int) =~= cs@);
    r
}

fn push_expansion(out: &mut Vec<char>, c: char, depth: u8)
    ensures
        final(out)@ == old(out)@ + canonical_expand(c, depth as nat),
    decreases depth,
{
    if depth == 0 {
        let ghost r0 = out@;
        out.push(c);
        assert(out@ =~= r0 + seq![c]);
        return;
    }
    match canonical_pair_of(c) {
        Some((b, m)) => {
            push_expansion(out, b, depth - 1);
            let ghost r1 = out@;
            out.push(m);
            assert(canonical_expand(c, depth as nat) == canonical_expand(b, (depth - 1) as nat).push(m));
            assert(out@ =~= old(out)@ + canonical_expand(c, depth as nat));
        },
        None => match canonical_single_of(c) {
            Some(d) => {
                push_expansion(out, d, depth - 1);
            },
            None => {
                let ghost r0 = out@;
                out.push(c);
                assert(out@ =~= r0 + seq![c]);
            },
        },
    }
}

fn insert_mark_into(acc: &mut Vec<char>, c: char)
    ensures
        final(acc)@ == insert_mark(old(acc)@, c),
    decreases old(acc)@.len(),
{
    let n = acc.len();
    if n > 0 && combining_class_of(acc[n - 1]) > combining_class_of(c) {
        let last = acc.pop().unwrap();
        assert(old(acc)@.drop_last() == acc@);
        insert_mark_into(acc, c);
        acc.push(last);
    } else {
        acc.push(c);
    }
}

fn canonical_order_of(cs: &Vec<char>) -> (r: Vec<char>)
    ensures
        r@ == canonical_order(cs@),
{
    let mut r: Vec<char> = Vec::new();
    let mut i: usize = 0;
    while i < cs.len()
        invariant
            i <= cs@.len(),
            r@ == canonical_order(cs@.take(i as int)),
        decreases cs.len() - i,
    {
        let c = cs[i];
        assert(cs@.take(i + 1).drop_last() =~= cs@.take(i as int));
        if combining_class_of(c) == 0 {
            r.push(c);
        } else {
            insert_mark_into(&mut r, c);
        }
        i = i + 1;
    }
    assert(cs@.take(i as int) =~= cs@);
    r
}

fn composite_of(a: char, b: char) -> (r: Option<char>)
    ensures
        r == composite(a, b),
{
    let mut u: u32 = 0xC0;
    while u < 0x1F00
        invariant
            0xC0 <= u <= 0x1F00,
            composite_from(a, b, 0xC0) == composite_from(a, b, u),
        decreases 0x1F00 - u,
    {
        if 0x250 <= u && u < 0x1E00 {
            u = 0x1E00;
            continue;
        }
        let c = char_of(u);
        if let Some((x, y)) = canonical_pair_of(c) {
            if x == a && y == b {
                return Some(c);
            }
        }
        u = u + 1;
    }
    None
}

/// The character with a code point below the surrogates (std's `char::from_u32`, which
/// gives `Some` for every code point that is not a surrogate or past U+10FFFF).
#[verifier::external_body]
fn char_of(u: u32) -> (r: char)
    requires
        u < 0xD800,
    ensures
        r as u32 == u,
{
    char::from_u32(u).unwrap_or('\0')
}

fn compose_chars(cs: &Vec<char>) -> (r: Vec<char>)
    ensures
        r@ == compose(cs@),
{
    let mut out: Vec<char> = Vec::new();
    let mut st: Option<usize> = None;
    let mut last: u8 = 0;
    let mut i: usize = 0;
    while i < cs.len()
        invariant
            i <= cs@.len(),
            st matches Some(p) ==> p < out@.len(),
            compose_state(cs@.take(i as int)) == (out@, match st { Some(p) => p as int, None => -1int }, last as int),
        decreases cs.len() - i,
    {
        let c = cs[i];
        assert(cs@.take(i + 1).drop_last() =~= cs@.take(i as int));
        let k = combining_class_of(c);
        let mut merged = false;
        if let Some(p) = st {
            if last < k || last == 0 {
                if let Some(m) = composite_of(out[p], c) {
                    out.set(p, m);
                    merged = true;
                }
            }
        }
        if !merged {
            if k == 0 {
                st = Some(out.len());
            }
            out.push(c);
            last = k;
        }
        i = i + 1;
    }
    assert(cs@.take(i as int) =~= cs@);
    out
}

fn string_of(cs: &Vec<char>) -> (r: String)
    ensures
        r@ == cs@,
{
    let mut r = String::new();
    let mut i: usize = 0;
    while i < cs.len()
        invariant
            i <= cs@.len(),
            r@ == cs@.take(i as int),
        decreases cs.len() - i,
    {
        push_char(&mut r, cs[i]);
        assert(cs@.take(i + 1) =~= cs@.take(i as int).push(cs@[i as int]));
        i = i + 1;
    }
    assert(cs@.take(i as int) =~= cs@);
    r
}

/// NFD of a text.
pub fn nfd_string(text: &str) -> (r: String)
    ensures
        r@ == spec_nfd(text@),
{
    let cs = chars_of(text);
    let d = decompose_chars(&cs, false);
    string_of(&canonical_order_of(&d))
}

/// NFKD of a text.
pub fn nfkd_string(text: &str) -> (r: String)
    ensures
        r@ == spec_nfkd(text@),
{
    let cs = chars_of(text);
    let d = decompose_chars(&cs, true);
    string_of(&canonical_order_of(&d))
}

/// NFC of a text.
pub fn nfc_string(text: &str) -> (r: String)
    ensures
        r@ == spec_nfc(text@),
{
    let cs = chars_of(text);
    let d = decompose_chars(&cs, false);
    let o = canonical_order_of(&d);
    string_of(&compose_chars(&o))
}

/// NFKC of a text.
pub fn nfkc_string(text: &str) -> (r: String)
    ensures
        r@ == spec_nfkc(text@),
{
    let cs = chars_of(text);
    let d = decompose_chars(&cs, true);
    let o = canonical_order_of(&d);
    string_of(&compose_chars(&o))
}

/// Whether a text is its own NFC.
pub fn is_nfc_string(text: &str) -> (r: bool)
    ensures
        r == (spec_nfc(text@) == text@),
{
    let cs = chars_of(text);
    let d = decompose_chars(&cs, false);
    let o = canonical_order_of(&d);
    let n = compose_chars(&o);
    if n.len() != cs.len() {
        return false;
    }
    let mut i: usize = 0;
    while i < n.len()
        invariant
            n@ == spec_nfc(text@),
            cs@ == text@,
            n@.len() == cs@.len(),
            i <= n@.len(),
            forall|j: int| 0 <= j < i ==> n@[j] == cs@[j],
        decreases n.len() - i,
    {
        if n[i] != cs[i] {
            assert(n@[i as int] != cs@[i as int]);
            return false;
        }
        i = i + 1;
    }
    assert(n@ =~= cs@);
    true
}

} // verus!
