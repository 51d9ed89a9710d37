//! Conversions from each instruction definition into [`Insn`].
//!
//! Each conversion wraps the definition in its variant of the tagged
//! instruction union, and says so in its specification.

use vstd::prelude::*;

use super::insns::{
    AddInsn, AndInsn, CallInsn, ClsInsn, DrwInsn, JpInsn, LdInsn, OrInsn, RetInsn, RndInsn, SeInsn,
    ShlInsn, ShrInsn, SkpInsn, SkpNpInsn, SneInsn, SubInsn, SubNInsn, SysInsn, XorInsn,
};
use super::Insn;

verus! {

impl From<ClsInsn> for Insn {
    fn from(insn: ClsInsn) -> Self {
        Self::Cls(insn)
    }
}

impl vstd::std_specs::convert::FromSpecImpl<ClsInsn> for Insn {
    open spec fn obeys_from_spec() -> bool {
        true
    }

    open spec fn from_spec(insn: ClsInsn) -> Self {
        Self::Cls(insn)
    }
}

impl From<RetInsn> for Insn {
    fn from(insn: RetInsn) -> Self {
        Self::Ret(insn)
    }
}

impl vstd::std_specs::convert::FromSpecImpl<RetInsn> for Insn {
    open spec fn obeys_from_spec() -> bool {
        true
    }

    open spec fn from_spec(insn: RetInsn) -> Self {
        Self::Ret(insn)
    }
}

impl From<SysInsn> for Insn {
    fn from(insn: SysInsn) -> Self {
        Self::Sys(insn)
    }
}

impl vstd::std_specs::convert::FromSpecImpl<SysInsn> for Insn {
    open spec fn obeys_from_spec() -> bool {
        true
    }

    open spec fn from_spec(insn: SysInsn) -> Self {
        Self::Sys(insn)
    }
}

impl From<JpInsn> for Insn {
    fn from(insn: JpInsn) -> Self {
        Self::Jp(insn)
    }
}

impl vstd::std_specs::convert::FromSpecImpl<JpInsn> for Insn {
    open spec fn obeys_from_spec() -> bool {
        true
    }

    open spec fn from_spec(insn: JpInsn) -> Self {
        Self::Jp(insn)
    }
}

impl From<CallInsn> for Insn {
    fn from(insn: CallInsn) -> Self {
        Self::Call(insn)
    }
}

impl vstd::std_specs::convert::FromSpecImpl<CallInsn> for Insn {
    open spec fn obeys_from_spec() -> bool {
        true
    }

    open spec fn from_spec(insn: CallInsn) -> Self {
        Self::Call(insn)
    }
}

impl From<SeInsn> for Insn {
    fn from(insn: SeInsn) -> Self {
        Self::Se(insn)
    }
}

impl vstd::std_specs::convert::FromSpecImpl<SeInsn> for Insn {
    open spec fn obeys_from_spec() -> bool {
        true
    }

    open spec fn from_spec(insn: SeInsn) -> Self {
        Self::Se(insn)
    }
}

impl From<SneInsn> for Insn {
    fn from(insn: SneInsn) -> Self {
        Self::SNe(insn)
    }
}

impl vstd::std_specs::convert::FromSpecImpl<SneInsn> for Insn {
    open spec fn obeys_from_spec() -> bool {
        true
    }

    open spec fn from_spec(insn: SneInsn) -> Self {
        Self::SNe(insn)
    }
}

impl From<LdInsn> for Insn {
    fn from(insn: LdInsn) -> Self {
        Self::Ld(insn)
    }
}

impl vstd::std_specs::convert::FromSpecImpl<LdInsn> for Insn {
    open spec fn obeys_from_spec() -> bool {
        true
    }

    open spec fn from_spec(insn: LdInsn) -> Self {
        Self::Ld(insn)
    }
}

impl From<AddInsn> for Insn {
    fn from(insn: AddInsn) -> Self {
        Self::Add(insn)
    }
}

impl vstd::std_specs::convert::FromSpecImpl<AddInsn> for Insn {
    open spec fn obeys_from_spec() -> bool {
        true
    }

    open spec fn from_spec(insn: AddInsn) -> Self {
        Self::Add(insn)
    }
}

impl From<OrInsn> for Insn {
    fn from(insn: OrInsn) -> Self {
        Self::Or(insn)
    }
}

impl vstd::std_specs::convert::FromSpecImpl<OrInsn> for Insn {
    open spec fn obeys_from_spec() -> bool {
        true
    }

    open spec fn from_spec(insn: OrInsn) -> Self {
        Self::Or(insn)
    }
}

impl From<AndInsn> for Insn {
    fn from(insn: AndInsn) -> Self {
        Self::And(insn)
    }
}

impl vstd::std_specs::convert::FromSpecImpl<AndInsn> for Insn {
    open spec fn obeys_from_spec() -> bool {
        true
    }

    open spec fn from_spec(insn: AndInsn) -> Self {
        Self::And(insn)
    }
}

impl From<XorInsn> for Insn {
    fn from(insn: XorInsn) -> Self {
        Self::Xor(insn)
    }
}

impl vstd::std_specs::convert::FromSpecImpl<XorInsn> for Insn {
    open spec fn obeys_from_spec() -> bool {
        true
    }

    open spec fn from_spec(insn: XorInsn) -> Self {
        Self::Xor(insn)
    }
}

impl From<SubInsn> for Insn {
    fn from(insn: SubInsn) -> Self {
        Self::Sub(insn)
    }
}

impl vstd::std_specs::convert::FromSpecImpl<SubInsn> for Insn {
    open spec fn obeys_from_spec() -> bool {
        true
    }

    open spec fn from_spec(insn: SubInsn) -> Self {
        Self::Sub(insn)
    }
}

impl From<ShrInsn> for Insn {
    fn from(insn: ShrInsn) -> Self {
        Self::Shr(insn)
    }
}

impl vstd::std_specs::convert::FromSpecImpl<ShrInsn> for Insn {
    open spec fn obeys_from_spec() -> bool {
        true
    }

    open spec fn from_spec(insn: ShrInsn) -> Self {
        Self::Shr(insn)
    }
}

impl From<SubNInsn> for Insn {
    fn from(insn: SubNInsn) -> Self {
        Self::SubN(insn)
    }
}

impl vstd::std_specs::convert::FromSpecImpl<SubNInsn> for Insn {
    open spec fn obeys_from_spec() -> bool {
        true
    }

    open spec fn from_spec(insn: SubNInsn) -> Self {
        Self::SubN(insn)
    }
}

impl From<ShlInsn> for Insn {
    fn from(insn: ShlInsn) -> Self {
        Self::Shl(insn)
    }
}

impl vstd::std_specs::convert::FromSpecImpl<ShlInsn> for Insn {
    open spec fn obeys_from_spec() -> bool {
        true
    }

    open spec fn from_spec(insn: ShlInsn) -> Self {
        Self::Shl(insn)
    }
}

impl From<RndInsn> for Insn {
    fn from(insn: RndInsn) -> Self {
        Self::Rnd(insn)
    }
}

impl vstd::std_specs::convert::FromSpecImpl<RndInsn> for Insn {
    open spec fn obeys_from_spec() -> bool {
        true
    }

    open spec fn from_spec(insn: RndInsn) -> Self {
        Self::Rnd(insn)
    }
}

impl From<DrwInsn> for Insn {
    fn from(insn: DrwInsn) -> Self {
        Self::Drw(insn)
    }
}

impl vstd::std_specs::convert::FromSpecImpl<DrwInsn> for Insn {
    open spec fn obeys_from_spec() -> bool {
        true
    }

    open spec fn from_spec(insn: DrwInsn) -> Self {
        Self::Drw(insn)
    }
}

impl From<SkpInsn> for Insn {
    fn from(insn: SkpInsn) -> Self {
        Self::Skp(insn)
    }
}

impl vstd::std_specs::convert::FromSpecImpl<SkpInsn> for Insn {
    open spec fn obeys_from_spec() -> bool {
        true
    }

    open spec fn from_spec(insn: SkpInsn) -> Self {
        Self::Skp(insn)
    }
}

impl From<SkpNpInsn> for Insn {
    fn from(insn: SkpNpInsn) -> Self {
        Self::SkpNp(insn)
    }
}

impl vstd::std_specs::convert::FromSpecImpl<SkpNpInsn> for Insn {
    open spec fn obeys_from_spec() -> bool {
        true
    }

    open spec fn from_spec(insn: SkpNpInsn) -> Self {
        Self::SkpNp(insn)
    }
}

} // verus!
