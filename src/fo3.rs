//! The dispatch table of the Fallout 3 master-file format.
use vstd::prelude::*;
use crate::header::TES4;
use crate::registry::{FieldKind, FieldRule, RecordKind, RecordRule, Registry};
use crate::tags;

verus! {

/// Sizes in bytes of the fixed-layout values that the format's bindings
/// define, one per value type.
#[derive(Clone, Copy, Debug, PartialEq, Eq, Structural)]
pub struct LeafWidths {
    pub attr: u16,
    pub clas: u16,
    pub cnto: u16,
    pub coed: u16,
    pub crdt: u16,
    pub ctda: u16,
    pub data: u16,
    pub dnam: u16,
    pub dstd: u16,
    pub efit: u16,
    pub enit: u16,
    pub hedr: u16,
    pub mgef: u16,
    pub obnd: u16,
    pub schr: u16,
    pub sndd: u16,
    pub spit: u16,
    pub xnam: u16,
}

/// The record rules of the table, in the order in which they are tried.
pub open spec fn fallout3_records() -> Seq<RecordRule> {
    seq![
        RecordRule { record: tags::GLOB, kind: RecordKind::Fields },
        RecordRule { record: tags::FACT, kind: RecordKind::Fields },
        RecordRule { record: tags::TXST, kind: RecordKind::Fields },
        RecordRule { record: tags::CLAS, kind: RecordKind::Fields },
        RecordRule { record: tags::SOUN, kind: RecordKind::Fields },
        RecordRule { record: tags::ASPC, kind: RecordKind::Fields },
        RecordRule { record: tags::MGEF, kind: RecordKind::Fields },
        RecordRule { record: tags::ENCH, kind: RecordKind::Fields },
        RecordRule { record: tags::SCPT, kind: RecordKind::Localized },
        RecordRule { record: tags::SPEL, kind: RecordKind::Fields },
        RecordRule { record: tags::ACTI, kind: RecordKind::Fields },
        RecordRule { record: tags::TERM, kind: RecordKind::Fields },
        RecordRule { record: tags::CONT, kind: RecordKind::Fields },
        RecordRule { record: tags::LIGH, kind: RecordKind::Fields },
        RecordRule { record: tags::MISC, kind: RecordKind::Fields },
        RecordRule { record: tags::STAT, kind: RecordKind::Fields },
        RecordRule { record: tags::MSTT, kind: RecordKind::Fields },
        RecordRule { record: tags::PWAT, kind: RecordKind::Fields },
        RecordRule { record: tags::FURN, kind: RecordKind::Fields },
        RecordRule { record: tags::WEAP, kind: RecordKind::Fields },
        RecordRule { record: tags::AMMO, kind: RecordKind::Fields },
        RecordRule { record: tags::CREA, kind: RecordKind::Fields },
        RecordRule { record: tags::LVLC, kind: RecordKind::Fields },
        RecordRule { record: tags::ALCH, kind: RecordKind::Fields },
        RecordRule { record: tags::NOTE, kind: RecordKind::Fields },
        RecordRule { record: tags::PROJ, kind: RecordKind::Fields },
        RecordRule { record: tags::LVLI, kind: RecordKind::Fields },
        RecordRule { record: tags::REGN, kind: RecordKind::Fields },
        RecordRule { record: tags::NAVI, kind: RecordKind::Fields },
        RecordRule { record: tags::DIAL, kind: RecordKind::Fields },
        RecordRule { record: tags::QUST, kind: RecordKind::Fields },
        RecordRule { record: tags::IDLE, kind: RecordKind::Fields },
        RecordRule { record: tags::PACK, kind: RecordKind::Fields },
        RecordRule { record: tags::CSTY, kind: RecordKind::Fields },
        RecordRule { record: tags::ANIO, kind: RecordKind::Fields },
        RecordRule { record: tags::WATR, kind: RecordKind::Fields },
        RecordRule { record: tags::EFSH, kind: RecordKind::Fields },
        RecordRule { record: tags::EXPL, kind: RecordKind::Fields },
        RecordRule { record: tags::DEBR, kind: RecordKind::Fields },
        RecordRule { record: tags::IMGS, kind: RecordKind::Fields },
        RecordRule { record: tags::FLST, kind: RecordKind::Fields },
        RecordRule { record: tags::PERK, kind: RecordKind::Fields },
        RecordRule { record: tags::BPTD, kind: RecordKind::Fields },
        RecordRule { record: tags::ADDN, kind: RecordKind::Fields },
        RecordRule { record: tags::CAMS, kind: RecordKind::Fields },
        RecordRule { record: tags::CPTH, kind: RecordKind::Fields },
        RecordRule { record: tags::VTYP, kind: RecordKind::Fields },
        RecordRule { record: tags::IPCT, kind: RecordKind::Fields },
        RecordRule { record: tags::IPDS, kind: RecordKind::Fields },
        RecordRule { record: tags::ARMA, kind: RecordKind::Fields },
        RecordRule { record: tags::ECZN, kind: RecordKind::Fields },
        RecordRule { record: tags::MESG, kind: RecordKind::Fields },
        RecordRule { record: tags::RGDL, kind: RecordKind::Fields },
        RecordRule { record: tags::NPC_, kind: RecordKind::Skip },
        RecordRule { record: tags::WRLD, kind: RecordKind::Fields },
        RecordRule { record: tags::TACT, kind: RecordKind::Fields },
        RecordRule { record: tags::ARMO, kind: RecordKind::Fields },
        RecordRule { record: tags::DOOR, kind: RecordKind::Fields },
        RecordRule { record: tags::SCOL, kind: RecordKind::Fields },
        RecordRule { record: tags::IDLM, kind: RecordKind::Fields },
        RecordRule { record: tags::IMAD, kind: RecordKind::Skip },
        RecordRule { record: tags::CELL, kind: RecordKind::Fields },
        RecordRule { record: tags::ACRE, kind: RecordKind::Fields },
        RecordRule { record: tags::NAVM, kind: RecordKind::Fields },
        RecordRule { record: tags::ACHR, kind: RecordKind::Fields },
        RecordRule { record: tags::INFO, kind: RecordKind::Fields },
        RecordRule { record: tags::REFR, kind: RecordKind::Skip },
    ]
}

/// The field rules of the table, with fixed-layout values sized by `w`.
pub open spec fn fallout3_fields(w: LeafWidths) -> Seq<FieldRule> {
    seq![
        FieldRule { record: TES4, field: tags::HEDR, kind: FieldKind::Fixed(w.hedr) },
        FieldRule { record: TES4, field: tags::CNAM, kind: FieldKind::Text },
        FieldRule { record: TES4, field: tags::MAST, kind: FieldKind::Text },
        FieldRule { record: TES4, field: tags::DATA, kind: FieldKind::Fixed(8) },
        FieldRule { record: TES4, field: tags::ONAM, kind: FieldKind::Skip },
        FieldRule { record: tags::GLOB, field: tags::EDID, kind: FieldKind::Text },
        FieldRule { record: tags::GLOB, field: tags::FNAM, kind: FieldKind::Fixed(1) },
        FieldRule { record: tags::GLOB, field: tags::FLTV, kind: FieldKind::Fixed(4) },
        FieldRule { record: tags::FACT, field: tags::EDID, kind: FieldKind::Text },
        FieldRule { record: tags::FACT, field: tags::FULL, kind: FieldKind::Localized },
        FieldRule { record: tags::FACT, field: tags::XNAM, kind: FieldKind::Fixed(w.xnam) },
        FieldRule { record: tags::FACT, field: tags::DATA, kind: FieldKind::Fixed(4) },
        FieldRule { record: tags::FACT, field: tags::RNAM, kind: FieldKind::Fixed(4) },
        FieldRule { record: tags::FACT, field: tags::MNAM, kind: FieldKind::Localized },
        FieldRule { record: tags::FACT, field: tags::FNAM, kind: FieldKind::Localized },
        FieldRule { record: tags::TXST, field: tags::EDID, kind: FieldKind::Text },
        FieldRule { record: tags::TXST, field: tags::OBND, kind: FieldKind::Fixed(w.obnd) },
        FieldRule { record: tags::TXST, field: tags::DNAM, kind: FieldKind::Fixed(2) },
        FieldRule { record: tags::CLAS, field: tags::EDID, kind: FieldKind::Text },
        FieldRule { record: tags::CLAS, field: tags::FULL, kind: FieldKind::Localized },
        FieldRule { record: tags::CLAS, field: tags::DESC, kind: FieldKind::Localized },
        FieldRule { record: tags::CLAS, field: tags::DATA, kind: FieldKind::Fixed(w.clas) },
        FieldRule { record: tags::CLAS, field: tags::ATTR, kind: FieldKind::Fixed(w.attr) },
        FieldRule { record: tags::SOUN, field: tags::EDID, kind: FieldKind::Text },
        FieldRule { record: tags::SOUN, field: tags::OBND, kind: FieldKind::Fixed(w.obnd) },
        FieldRule { record: tags::SOUN, field: tags::FNAM, kind: FieldKind::Text },
        FieldRule { record: tags::SOUN, field: tags::SNDD, kind: FieldKind::Fixed(w.sndd) },
        FieldRule { record: tags::SOUN, field: tags::SDSC, kind: FieldKind::Fixed(4) },
        FieldRule { record: tags::ASPC, field: tags::EDID, kind: FieldKind::Text },
        FieldRule { record: tags::ASPC, field: tags::OBND, kind: FieldKind::Fixed(w.obnd) },
        FieldRule { record: tags::ASPC, field: tags::SNAM, kind: FieldKind::Fixed(4) },
        FieldRule { record: tags::ASPC, field: tags::RDAT, kind: FieldKind::Fixed(4) },
        FieldRule { record: tags::ASPC, field: tags::BNAM, kind: FieldKind::Fixed(4) },
        FieldRule { record: tags::ASPC, field: tags::ANAM, kind: FieldKind::Fixed(4) },
        FieldRule { record: tags::MGEF, field: tags::EDID, kind: FieldKind::Text },
        FieldRule { record: tags::MGEF, field: tags::FULL, kind: FieldKind::Localized },
        FieldRule { record: tags::MGEF, field: tags::DESC, kind: FieldKind::Localized },
        FieldRule { record: tags::MGEF, field: tags::DATA, kind: FieldKind::Fixed(w.mgef) },
        FieldRule { record: tags::ENCH, field: tags::EDID, kind: FieldKind::Text },
        FieldRule { record: tags::ENCH, field: tags::FULL, kind: FieldKind::Localized },
        FieldRule { record: tags::ENCH, field: tags::ENIT, kind: FieldKind::Fixed(w.enit) },
        FieldRule { record: tags::ENCH, field: tags::EFID, kind: FieldKind::Fixed(4) },
        FieldRule { record: tags::ENCH, field: tags::EFIT, kind: FieldKind::Fixed(w.efit) },
        FieldRule { record: tags::SPEL, field: tags::EDID, kind: FieldKind::Text },
        FieldRule { record: tags::SPEL, field: tags::FULL, kind: FieldKind::Localized },
        FieldRule { record: tags::SPEL, field: tags::SPIT, kind: FieldKind::Fixed(w.spit) },
        FieldRule { record: tags::SPEL, field: tags::EFID, kind: FieldKind::Fixed(4) },
        FieldRule { record: tags::SPEL, field: tags::EFIT, kind: FieldKind::Fixed(w.efit) },
        FieldRule { record: tags::SPEL, field: tags::CTDA, kind: FieldKind::Fixed(w.ctda) },
        FieldRule { record: tags::ACTI, field: tags::EDID, kind: FieldKind::Text },
        FieldRule { record: tags::ACTI, field: tags::FULL, kind: FieldKind::Localized },
        FieldRule { record: tags::ACTI, field: tags::OBND, kind: FieldKind::Fixed(w.obnd) },
        FieldRule { record: tags::ACTI, field: tags::SCRI, kind: FieldKind::Fixed(4) },
        FieldRule { record: tags::ACTI, field: tags::VNAM, kind: FieldKind::Fixed(4) },
        FieldRule { record: tags::ACTI, field: tags::MODL, kind: FieldKind::Text },
        FieldRule { record: tags::ACTI, field: tags::SNAM, kind: FieldKind::Fixed(4) },
        FieldRule { record: tags::ACTI, field: tags::DEST, kind: FieldKind::Fixed(8) },
        FieldRule { record: tags::ACTI, field: tags::DSTD, kind: FieldKind::Fixed(w.dstd) },
        FieldRule { record: tags::ACTI, field: tags::DSTF, kind: FieldKind::Fixed(0) },
        FieldRule { record: tags::ACTI, field: tags::DMDL, kind: FieldKind::Text },
        FieldRule { record: tags::TERM, field: tags::EDID, kind: FieldKind::Text },
        FieldRule { record: tags::TERM, field: tags::FULL, kind: FieldKind::Localized },
        FieldRule { record: tags::TERM, field: tags::OBND, kind: FieldKind::Fixed(w.obnd) },
        FieldRule { record: tags::TERM, field: tags::MODL, kind: FieldKind::Text },
        FieldRule { record: tags::TERM, field: tags::DESC, kind: FieldKind::Localized },
        FieldRule { record: tags::TERM, field: tags::CTDA, kind: FieldKind::Fixed(w.ctda) },
        FieldRule { record: tags::TERM, field: tags::RNAM, kind: FieldKind::Text },
        FieldRule { record: tags::TERM, field: tags::ITXT, kind: FieldKind::Text },
        FieldRule { record: tags::TERM, field: tags::SNAM, kind: FieldKind::Fixed(4) },
        FieldRule { record: tags::TERM, field: tags::SCHR, kind: FieldKind::Fixed(w.schr) },
        FieldRule { record: tags::CONT, field: tags::EDID, kind: FieldKind::Text },
        FieldRule { record: tags::CONT, field: tags::FULL, kind: FieldKind::Localized },
        FieldRule { record: tags::CONT, field: tags::OBND, kind: FieldKind::Fixed(w.obnd) },
        FieldRule { record: tags::CONT, field: tags::MODL, kind: FieldKind::Text },
        FieldRule { record: tags::CONT, field: tags::SCRI, kind: FieldKind::Fixed(4) },
        FieldRule { record: tags::CONT, field: tags::DATA, kind: FieldKind::Fixed(5) },
        FieldRule { record: tags::CONT, field: tags::CNTO, kind: FieldKind::Fixed(w.cnto) },
        FieldRule { record: tags::CONT, field: tags::COED, kind: FieldKind::Fixed(w.coed) },
        FieldRule { record: tags::LIGH, field: tags::EDID, kind: FieldKind::Text },
        FieldRule { record: tags::LIGH, field: tags::OBND, kind: FieldKind::Fixed(w.obnd) },
        FieldRule { record: tags::LIGH, field: tags::MODL, kind: FieldKind::Text },
        FieldRule { record: tags::LIGH, field: tags::SCRI, kind: FieldKind::Fixed(4) },
        FieldRule { record: tags::MISC, field: tags::EDID, kind: FieldKind::Text },
        FieldRule { record: tags::MISC, field: tags::OBND, kind: FieldKind::Fixed(w.obnd) },
        FieldRule { record: tags::MISC, field: tags::MODL, kind: FieldKind::Text },
        FieldRule { record: tags::MISC, field: tags::ICON, kind: FieldKind::Text },
        FieldRule { record: tags::STAT, field: tags::EDID, kind: FieldKind::Text },
        FieldRule { record: tags::STAT, field: tags::FULL, kind: FieldKind::Localized },
        FieldRule { record: tags::STAT, field: tags::OBND, kind: FieldKind::Fixed(w.obnd) },
        FieldRule { record: tags::STAT, field: tags::MODL, kind: FieldKind::Text },
        FieldRule { record: tags::MSTT, field: tags::EDID, kind: FieldKind::Text },
        FieldRule { record: tags::MSTT, field: tags::FULL, kind: FieldKind::Localized },
        FieldRule { record: tags::MSTT, field: tags::OBND, kind: FieldKind::Fixed(w.obnd) },
        FieldRule { record: tags::MSTT, field: tags::MODL, kind: FieldKind::Text },
        FieldRule { record: tags::MSTT, field: tags::DATA, kind: FieldKind::Fixed(1) },
        FieldRule { record: tags::PWAT, field: tags::EDID, kind: FieldKind::Text },
        FieldRule { record: tags::PWAT, field: tags::OBND, kind: FieldKind::Fixed(w.obnd) },
        FieldRule { record: tags::PWAT, field: tags::MODL, kind: FieldKind::Text },
        FieldRule { record: tags::FURN, field: tags::EDID, kind: FieldKind::Text },
        FieldRule { record: tags::FURN, field: tags::FULL, kind: FieldKind::Localized },
        FieldRule { record: tags::FURN, field: tags::OBND, kind: FieldKind::Fixed(w.obnd) },
        FieldRule { record: tags::FURN, field: tags::MODL, kind: FieldKind::Text },
        FieldRule { record: tags::FURN, field: tags::MNAM, kind: FieldKind::Fixed(4) },
        FieldRule { record: tags::WEAP, field: tags::EDID, kind: FieldKind::Text },
        FieldRule { record: tags::WEAP, field: tags::FULL, kind: FieldKind::Localized },
        FieldRule { record: tags::WEAP, field: tags::OBND, kind: FieldKind::Fixed(w.obnd) },
        FieldRule { record: tags::WEAP, field: tags::MODL, kind: FieldKind::Text },
        FieldRule { record: tags::WEAP, field: tags::MOD2, kind: FieldKind::Text },
        FieldRule { record: tags::WEAP, field: tags::MOD3, kind: FieldKind::Text },
        FieldRule { record: tags::WEAP, field: tags::MOD4, kind: FieldKind::Text },
        FieldRule { record: tags::WEAP, field: tags::ICON, kind: FieldKind::Text },
        FieldRule { record: tags::WEAP, field: tags::CRDT, kind: FieldKind::Fixed(w.crdt) },
        FieldRule { record: tags::WEAP, field: tags::EITM, kind: FieldKind::Fixed(4) },
        FieldRule { record: tags::WEAP, field: tags::ETYP, kind: FieldKind::Fixed(4) },
        FieldRule { record: tags::WEAP, field: tags::DATA, kind: FieldKind::Fixed(w.data) },
        FieldRule { record: tags::WEAP, field: tags::REPL, kind: FieldKind::Fixed(4) },
        FieldRule { record: tags::WEAP, field: tags::SCRI, kind: FieldKind::Fixed(4) },
        FieldRule { record: tags::WEAP, field: tags::NAM0, kind: FieldKind::Fixed(4) },
        FieldRule { record: tags::WEAP, field: tags::NAM6, kind: FieldKind::Fixed(4) },
        FieldRule { record: tags::WEAP, field: tags::NAM8, kind: FieldKind::Fixed(4) },
        FieldRule { record: tags::WEAP, field: tags::NAM9, kind: FieldKind::Fixed(4) },
        FieldRule { record: tags::WEAP, field: tags::DNAM, kind: FieldKind::Fixed(w.dnam) },
        FieldRule { record: tags::WEAP, field: tags::INAM, kind: FieldKind::Fixed(4) },
        FieldRule { record: tags::WEAP, field: tags::NNAM, kind: FieldKind::Text },
        FieldRule { record: tags::WEAP, field: tags::SNAM, kind: FieldKind::Fixed(4) },
        FieldRule { record: tags::WEAP, field: tags::TNAM, kind: FieldKind::Fixed(4) },
        FieldRule { record: tags::WEAP, field: tags::UNAM, kind: FieldKind::Fixed(4) },
        FieldRule { record: tags::WEAP, field: tags::VNAM, kind: FieldKind::Fixed(4) },
        FieldRule { record: tags::WEAP, field: tags::WNAM, kind: FieldKind::Fixed(4) },
        FieldRule { record: tags::WEAP, field: tags::XNAM, kind: FieldKind::Fixed(4) },
        FieldRule { record: tags::WEAP, field: tags::YNAM, kind: FieldKind::Fixed(4) },
        FieldRule { record: tags::WEAP, field: tags::ZNAM, kind: FieldKind::Fixed(4) },
        FieldRule { record: tags::AMMO, field: tags::EDID, kind: FieldKind::Text },
        FieldRule { record: tags::AMMO, field: tags::FULL, kind: FieldKind::Localized },
        FieldRule { record: tags::AMMO, field: tags::OBND, kind: FieldKind::Fixed(w.obnd) },
        FieldRule { record: tags::AMMO, field: tags::MODL, kind: FieldKind::Text },
        FieldRule { record: tags::AMMO, field: tags::ICON, kind: FieldKind::Text },
        FieldRule { record: tags::CREA, field: tags::EDID, kind: FieldKind::Text },
        FieldRule { record: tags::CREA, field: tags::FULL, kind: FieldKind::Localized },
        FieldRule { record: tags::CREA, field: tags::OBND, kind: FieldKind::Fixed(w.obnd) },
        FieldRule { record: tags::LVLC, field: tags::EDID, kind: FieldKind::Text },
        FieldRule { record: tags::LVLC, field: tags::OBND, kind: FieldKind::Fixed(w.obnd) },
        FieldRule { record: tags::ALCH, field: tags::EDID, kind: FieldKind::Text },
        FieldRule { record: tags::ALCH, field: tags::FULL, kind: FieldKind::Localized },
        FieldRule { record: tags::ALCH, field: tags::OBND, kind: FieldKind::Fixed(w.obnd) },
        FieldRule { record: tags::ALCH, field: tags::MODL, kind: FieldKind::Text },
        FieldRule { record: tags::ALCH, field: tags::ICON, kind: FieldKind::Text },
        FieldRule { record: tags::ALCH, field: tags::EFID, kind: FieldKind::Fixed(4) },
        FieldRule { record: tags::ALCH, field: tags::EFIT, kind: FieldKind::Fixed(w.efit) },
        FieldRule { record: tags::ALCH, field: tags::CTDA, kind: FieldKind::Fixed(w.ctda) },
        FieldRule { record: tags::NOTE, field: tags::EDID, kind: FieldKind::Text },
        FieldRule { record: tags::NOTE, field: tags::FULL, kind: FieldKind::Localized },
        FieldRule { record: tags::NOTE, field: tags::OBND, kind: FieldKind::Fixed(w.obnd) },
        FieldRule { record: tags::NOTE, field: tags::MODL, kind: FieldKind::Text },
        FieldRule { record: tags::NOTE, field: tags::ICON, kind: FieldKind::Text },
        FieldRule { record: tags::PROJ, field: tags::EDID, kind: FieldKind::Text },
        FieldRule { record: tags::PROJ, field: tags::FULL, kind: FieldKind::Localized },
        FieldRule { record: tags::PROJ, field: tags::OBND, kind: FieldKind::Fixed(w.obnd) },
        FieldRule { record: tags::PROJ, field: tags::MODL, kind: FieldKind::Text },
        FieldRule { record: tags::LVLI, field: tags::EDID, kind: FieldKind::Text },
        FieldRule { record: tags::LVLI, field: tags::OBND, kind: FieldKind::Fixed(w.obnd) },
        FieldRule { record: tags::REGN, field: tags::EDID, kind: FieldKind::Text },
        FieldRule { record: tags::DIAL, field: tags::EDID, kind: FieldKind::Text },
        FieldRule { record: tags::QUST, field: tags::EDID, kind: FieldKind::Text },
        FieldRule { record: tags::PACK, field: tags::EDID, kind: FieldKind::Text },
        FieldRule { record: tags::CSTY, field: tags::EDID, kind: FieldKind::Text },
        FieldRule { record: tags::ANIO, field: tags::EDID, kind: FieldKind::Text },
        FieldRule { record: tags::ANIO, field: tags::MODL, kind: FieldKind::Text },
        FieldRule { record: tags::WATR, field: tags::EDID, kind: FieldKind::Text },
        FieldRule { record: tags::WATR, field: tags::FULL, kind: FieldKind::Localized },
        FieldRule { record: tags::EFSH, field: tags::EDID, kind: FieldKind::Text },
        FieldRule { record: tags::EFSH, field: tags::ICON, kind: FieldKind::Text },
        FieldRule { record: tags::EFSH, field: tags::ICO2, kind: FieldKind::Text },
        FieldRule { record: tags::EXPL, field: tags::EDID, kind: FieldKind::Text },
        FieldRule { record: tags::EXPL, field: tags::FULL, kind: FieldKind::Localized },
        FieldRule { record: tags::EXPL, field: tags::OBND, kind: FieldKind::Fixed(w.obnd) },
        FieldRule { record: tags::EXPL, field: tags::MODL, kind: FieldKind::Text },
        FieldRule { record: tags::DEBR, field: tags::EDID, kind: FieldKind::Text },
        FieldRule { record: tags::IMGS, field: tags::EDID, kind: FieldKind::Text },
        FieldRule { record: tags::FLST, field: tags::EDID, kind: FieldKind::Text },
        FieldRule { record: tags::PERK, field: tags::EDID, kind: FieldKind::Text },
        FieldRule { record: tags::PERK, field: tags::FULL, kind: FieldKind::Localized },
        FieldRule { record: tags::PERK, field: tags::DESC, kind: FieldKind::Localized },
        FieldRule { record: tags::PERK, field: tags::ICON, kind: FieldKind::Text },
        FieldRule { record: tags::BPTD, field: tags::EDID, kind: FieldKind::Text },
        FieldRule { record: tags::BPTD, field: tags::MODL, kind: FieldKind::Text },
        FieldRule { record: tags::ADDN, field: tags::EDID, kind: FieldKind::Text },
        FieldRule { record: tags::ADDN, field: tags::OBND, kind: FieldKind::Fixed(w.obnd) },
        FieldRule { record: tags::ADDN, field: tags::MODL, kind: FieldKind::Text },
        FieldRule { record: tags::CAMS, field: tags::EDID, kind: FieldKind::Text },
        FieldRule { record: tags::CPTH, field: tags::EDID, kind: FieldKind::Text },
        FieldRule { record: tags::CPTH, field: tags::MODL, kind: FieldKind::Text },
        FieldRule { record: tags::CPTH, field: tags::CTDA, kind: FieldKind::Fixed(w.ctda) },
        FieldRule { record: tags::VTYP, field: tags::EDID, kind: FieldKind::Text },
        FieldRule { record: tags::IPCT, field: tags::EDID, kind: FieldKind::Text },
        FieldRule { record: tags::IPCT, field: tags::MODL, kind: FieldKind::Text },
        FieldRule { record: tags::IPDS, field: tags::EDID, kind: FieldKind::Text },
        FieldRule { record: tags::ARMA, field: tags::EDID, kind: FieldKind::Text },
        FieldRule { record: tags::ARMA, field: tags::FULL, kind: FieldKind::Localized },
        FieldRule { record: tags::ARMA, field: tags::OBND, kind: FieldKind::Fixed(w.obnd) },
        FieldRule { record: tags::ARMA, field: tags::MODL, kind: FieldKind::Text },
        FieldRule { record: tags::ARMA, field: tags::MOD3, kind: FieldKind::Text },
        FieldRule { record: tags::ECZN, field: tags::EDID, kind: FieldKind::Text },
        FieldRule { record: tags::MESG, field: tags::EDID, kind: FieldKind::Text },
        FieldRule { record: tags::MESG, field: tags::FULL, kind: FieldKind::Localized },
        FieldRule { record: tags::MESG, field: tags::DESC, kind: FieldKind::Localized },
        FieldRule { record: tags::RGDL, field: tags::EDID, kind: FieldKind::Text },
        FieldRule { record: tags::WRLD, field: tags::EDID, kind: FieldKind::Text },
        FieldRule { record: tags::WRLD, field: tags::FULL, kind: FieldKind::Localized },
        FieldRule { record: tags::WRLD, field: tags::CNAM, kind: FieldKind::Fixed(4) },
        FieldRule { record: tags::WRLD, field: tags::XXXX, kind: FieldKind::Extended },
        FieldRule { record: tags::TACT, field: tags::EDID, kind: FieldKind::Text },
        FieldRule { record: tags::TACT, field: tags::FULL, kind: FieldKind::Localized },
        FieldRule { record: tags::TACT, field: tags::OBND, kind: FieldKind::Fixed(w.obnd) },
        FieldRule { record: tags::TACT, field: tags::MODL, kind: FieldKind::Text },
        FieldRule { record: tags::TACT, field: tags::VNAM, kind: FieldKind::Fixed(4) },
        FieldRule { record: tags::TACT, field: tags::SCRI, kind: FieldKind::Fixed(4) },
        FieldRule { record: tags::ARMO, field: tags::EDID, kind: FieldKind::Text },
        FieldRule { record: tags::ARMO, field: tags::FULL, kind: FieldKind::Localized },
        FieldRule { record: tags::ARMO, field: tags::OBND, kind: FieldKind::Fixed(w.obnd) },
        FieldRule { record: tags::ARMO, field: tags::EITM, kind: FieldKind::Fixed(4) },
        FieldRule { record: tags::ARMO, field: tags::ICON, kind: FieldKind::Text },
        FieldRule { record: tags::ARMO, field: tags::MODL, kind: FieldKind::Text },
        FieldRule { record: tags::ARMO, field: tags::MODS, kind: FieldKind::Text },
        FieldRule { record: tags::ARMO, field: tags::MOD2, kind: FieldKind::Text },
        FieldRule { record: tags::ARMO, field: tags::MOD3, kind: FieldKind::Text },
        FieldRule { record: tags::ARMO, field: tags::MO2S, kind: FieldKind::Text },
        FieldRule { record: tags::ARMO, field: tags::MO3S, kind: FieldKind::Text },
        FieldRule { record: tags::DOOR, field: tags::EDID, kind: FieldKind::Text },
        FieldRule { record: tags::DOOR, field: tags::FULL, kind: FieldKind::Localized },
        FieldRule { record: tags::DOOR, field: tags::OBND, kind: FieldKind::Fixed(w.obnd) },
        FieldRule { record: tags::DOOR, field: tags::SCRI, kind: FieldKind::Fixed(4) },
        FieldRule { record: tags::DOOR, field: tags::MODL, kind: FieldKind::Text },
        FieldRule { record: tags::SCOL, field: tags::EDID, kind: FieldKind::Text },
        FieldRule { record: tags::SCOL, field: tags::OBND, kind: FieldKind::Fixed(w.obnd) },
        FieldRule { record: tags::SCOL, field: tags::MODL, kind: FieldKind::Text },
        FieldRule { record: tags::IDLM, field: tags::EDID, kind: FieldKind::Text },
        FieldRule { record: tags::IDLM, field: tags::OBND, kind: FieldKind::Fixed(w.obnd) },
        FieldRule { record: tags::CELL, field: tags::EDID, kind: FieldKind::Text },
        FieldRule { record: tags::CELL, field: tags::FULL, kind: FieldKind::Localized },
        FieldRule { record: tags::ACRE, field: tags::EDID, kind: FieldKind::Text },
    ]
}

/// Builds the Fallout 3 dispatch table, with fixed-layout values sized by
/// `w`.
pub fn fallout3(w: &LeafWidths) -> (r: Registry)
    ensures
        r.records@ == fallout3_records(),
        r.fields@ == fallout3_fields(*w),
{
    Registry {
        records: vec![
            RecordRule { record: tags::GLOB, kind: RecordKind::Fields },
            RecordRule { record: tags::FACT, kind: RecordKind::Fields },
            RecordRule { record: tags::TXST, kind: RecordKind::Fields },
            RecordRule { record: tags::CLAS, kind: RecordKind::Fields },
            RecordRule { record: tags::SOUN, kind: RecordKind::Fields },
            RecordRule { record: tags::ASPC, kind: RecordKind::Fields },
            RecordRule { record: tags::MGEF, kind: RecordKind::Fields },
            RecordRule { record: tags::ENCH, kind: RecordKind::Fields },
            RecordRule { record: tags::SCPT, kind: RecordKind::Localized },
            RecordRule { record: tags::SPEL, kind: RecordKind::Fields },
            RecordRule { record: tags::ACTI, kind: RecordKind::Fields },
            RecordRule { record: tags::TERM, kind: RecordKind::Fields },
            RecordRule { record: tags::CONT, kind: RecordKind::Fields },
            RecordRule { record: tags::LIGH, kind: RecordKind::Fields },
            RecordRule { record: tags::MISC, kind: RecordKind::Fields },
            RecordRule { record: tags::STAT, kind: RecordKind::Fields },
            RecordRule { record: tags::MSTT, kind: RecordKind::Fields },
            RecordRule { record: tags::PWAT, kind: RecordKind::Fields },
            RecordRule { record: tags::FURN, kind: RecordKind::Fields },
            RecordRule { record: tags::WEAP, kind: RecordKind::Fields },
            RecordRule { record: tags::AMMO, kind: RecordKind::Fields },
            RecordRule { record: tags::CREA, kind: RecordKind::Fields },
            RecordRule { record: tags::LVLC, kind: RecordKind::Fields },
            RecordRule { record: tags::ALCH, kind: RecordKind::Fields },
            RecordRule { record: tags::NOTE, kind: RecordKind::Fields },
            RecordRule { record: tags::PROJ, kind: RecordKind::Fields },
            RecordRule { record: tags::LVLI, kind: RecordKind::Fields },
            RecordRule { record: tags::REGN, kind: RecordKind::Fields },
            RecordRule { record: tags::NAVI, kind: RecordKind::Fields },
            RecordRule { record: tags::DIAL, kind: RecordKind::Fields },
            RecordRule { record: tags::QUST, kind: RecordKind::Fields },
            RecordRule { record: tags::IDLE, kind: RecordKind::Fields },
            RecordRule { record: tags::PACK, kind: RecordKind::Fields },
            RecordRule { record: tags::CSTY, kind: RecordKind::Fields },
            RecordRule { record: tags::ANIO, kind: RecordKind::Fields },
            RecordRule { record: tags::WATR, kind: RecordKind::Fields },
            RecordRule { record: tags::EFSH, kind: RecordKind::Fields },
            RecordRule { record: tags::EXPL, kind: RecordKind::Fields },
            RecordRule { record: tags::DEBR, kind: RecordKind::Fields },
            RecordRule { record: tags::IMGS, kind: RecordKind::Fields },
            RecordRule { record: tags::FLST, kind: RecordKind::Fields },
            RecordRule { record: tags::PERK, kind: RecordKind::Fields },
            RecordRule { record: tags::BPTD, kind: RecordKind::Fields },
            RecordRule { record: tags::ADDN, kind: RecordKind::Fields },
            RecordRule { record: tags::CAMS, kind: RecordKind::Fields },
            RecordRule { record: tags::CPTH, kind: RecordKind::Fields },
            RecordRule { record: tags::VTYP, kind: RecordKind::Fields },
            RecordRule { record: tags::IPCT, kind: RecordKind::Fields },
            RecordRule { record: tags::IPDS, kind: RecordKind::Fields },
            RecordRule { record: tags::ARMA, kind: RecordKind::Fields },
            RecordRule { record: tags::ECZN, kind: RecordKind::Fields },
            RecordRule { record: tags::MESG, kind: RecordKind::Fields },
            RecordRule { record: tags::RGDL, kind: RecordKind::Fields },
            RecordRule { record: tags::NPC_, kind: RecordKind::Skip },
            RecordRule { record: tags::WRLD, kind: RecordKind::Fields },
            RecordRule { record: tags::TACT, kind: RecordKind::Fields },
            RecordRule { record: tags::ARMO, kind: RecordKind::Fields },
            RecordRule { record: tags::DOOR, kind: RecordKind::Fields },
            RecordRule { record: tags::SCOL, kind: RecordKind::Fields },
            RecordRule { record: tags::IDLM, kind: RecordKind::Fields },
            RecordRule { record: tags::IMAD, kind: RecordKind::Skip },
            RecordRule { record: tags::CELL, kind: RecordKind::Fields },
            RecordRule { record: tags::ACRE, kind: RecordKind::Fields },
            RecordRule { record: tags::NAVM, kind: RecordKind::Fields },
            RecordRule { record: tags::ACHR, kind: RecordKind::Fields },
            RecordRule { record: tags::INFO, kind: RecordKind::Fields },
            RecordRule { record: tags::REFR, kind: RecordKind::Skip },
        ],
        fields: vec![
            FieldRule { record: TES4, field: tags::HEDR, kind: FieldKind::Fixed(w.hedr) },
            FieldRule { record: TES4, field: tags::CNAM, kind: FieldKind::Text },
            FieldRule { record: TES4, field: tags::MAST, kind: FieldKind::Text },
            FieldRule { record: TES4, field: tags::DATA, kind: FieldKind::Fixed(8) },
            FieldRule { record: TES4, field: tags::ONAM, kind: FieldKind::Skip },
            FieldRule { record: tags::GLOB, field: tags::EDID, kind: FieldKind::Text },
            FieldRule { record: tags::GLOB, field: tags::FNAM, kind: FieldKind::Fixed(1) },
            FieldRule { record: tags::GLOB, field: tags::FLTV, kind: FieldKind::Fixed(4) },
            FieldRule { record: tags::FACT, field: tags::EDID, kind: FieldKind::Text },
            FieldRule { record: tags::FACT, field: tags::FULL, kind: FieldKind::Localized },
            FieldRule { record: tags::FACT, field: tags::XNAM, kind: FieldKind::Fixed(w.xnam) },
            FieldRule { record: tags::FACT, field: tags::DATA, kind: FieldKind::Fixed(4) },
            FieldRule { record: tags::FACT, field: tags::RNAM, kind: FieldKind::Fixed(4) },
            FieldRule { record: tags::FACT, field: tags::MNAM, kind: FieldKind::Localized },
            FieldRule { record: tags::FACT, field: tags::FNAM, kind: FieldKind::Localized },
            FieldRule { record: tags::TXST, field: tags::EDID, kind: FieldKind::Text },
            FieldRule { record: tags::TXST, field: tags::OBND, kind: FieldKind::Fixed(w.obnd) },
            FieldRule { record: tags::TXST, field: tags::DNAM, kind: FieldKind::Fixed(2) },
            FieldRule { record: tags::CLAS, field: tags::EDID, kind: FieldKind::Text },
            FieldRule { record: tags::CLAS, field: tags::FULL, kind: FieldKind::Localized },
            FieldRule { record: tags::CLAS, field: tags::DESC, kind: FieldKind::Localized },
            FieldRule { record: tags::CLAS, field: tags::DATA, kind: FieldKind::Fixed(w.clas) },
            FieldRule { record: tags::CLAS, field: tags::ATTR, kind: FieldKind::Fixed(w.attr) },
            FieldRule { record: tags::SOUN, field: tags::EDID, kind: FieldKind::Text },
            FieldRule { record: tags::SOUN, field: tags::OBND, kind: FieldKind::Fixed(w.obnd) },
            FieldRule { record: tags::SOUN, field: tags::FNAM, kind: FieldKind::Text },
            FieldRule { record: tags::SOUN, field: tags::SNDD, kind: FieldKind::Fixed(w.sndd) },
            FieldRule { record: tags::SOUN, field: tags::SDSC, kind: FieldKind::Fixed(4) },
            FieldRule { record: tags::ASPC, field: tags::EDID, kind: FieldKind::Text },
            FieldRule { record: tags::ASPC, field: tags::OBND, kind: FieldKind::Fixed(w.obnd) },
            FieldRule { record: tags::ASPC, field: tags::SNAM, kind: FieldKind::Fixed(4) },
            FieldRule { record: tags::ASPC, field: tags::RDAT, kind: FieldKind::Fixed(4) },
            FieldRule { record: tags::ASPC, field: tags::BNAM, kind: FieldKind::Fixed(4) },
            FieldRule { record: tags::ASPC, field: tags::ANAM, kind: FieldKind::Fixed(4) },
            FieldRule { record: tags::MGEF, field: tags::EDID, kind: FieldKind::Text },
            FieldRule { record: tags::MGEF, field: tags::FULL, kind: FieldKind::Localized },
            FieldRule { record: tags::MGEF, field: tags::DESC, kind: FieldKind::Localized },
            FieldRule { record: tags::MGEF, field: tags::DATA, kind: FieldKind::Fixed(w.mgef) },
            FieldRule { record: tags::ENCH, field: tags::EDID, kind: FieldKind::Text },
            FieldRule { record: tags::ENCH, field: tags::FULL, kind: FieldKind::Localized },
            FieldRule { record: tags::ENCH, field: tags::ENIT, kind: FieldKind::Fixed(w.enit) },
            FieldRule { record: tags::ENCH, field: tags::EFID, kind: FieldKind::Fixed(4) },
            FieldRule { record: tags::ENCH, field: tags::EFIT, kind: FieldKind::Fixed(w.efit) },
            FieldRule { record: tags::SPEL, field: tags::EDID, kind: FieldKind::Text },
            FieldRule { record: tags::SPEL, field: tags::FULL, kind: FieldKind::Localized },
            FieldRule { record: tags::SPEL, field: tags::SPIT, kind: FieldKind::Fixed(w.spit) },
            FieldRule { record: tags::SPEL, field: tags::EFID, kind: FieldKind::Fixed(4) },
            FieldRule { record: tags::SPEL, field: tags::EFIT, kind: FieldKind::Fixed(w.efit) },
            FieldRule { record: tags::SPEL, field: tags::CTDA, kind: FieldKind::Fixed(w.ctda) },
            FieldRule { record: tags::ACTI, field: tags::EDID, kind: FieldKind::Text },
            FieldRule { record: tags::ACTI, field: tags::FULL, kind: FieldKind::Localized },
            FieldRule { record: tags::ACTI, field: tags::OBND, kind: FieldKind::Fixed(w.obnd) },
            FieldRule { record: tags::ACTI, field: tags::SCRI, kind: FieldKind::Fixed(4) },
            FieldRule { record: tags::ACTI, field: tags::VNAM, kind: FieldKind::Fixed(4) },
            FieldRule { record: tags::ACTI, field: tags::MODL, kind: FieldKind::Text },
            FieldRule { record: tags::ACTI, field: tags::SNAM, kind: FieldKind::Fixed(4) },
            FieldRule { record: tags::ACTI, field: tags::DEST, kind: FieldKind::Fixed(8) },
            FieldRule { record: tags::ACTI, field: tags::DSTD, kind: FieldKind::Fixed(w.dstd) },
            FieldRule { record: tags::ACTI, field: tags::DSTF, kind: FieldKind::Fixed(0) },
            FieldRule { record: tags::ACTI, field: tags::DMDL, kind: FieldKind::Text },
            FieldRule { record: tags::TERM, field: tags::EDID, kind: FieldKind::Text },
            FieldRule { record: tags::TERM, field: tags::FULL, kind: FieldKind::Localized },
            FieldRule { record: tags::TERM, field: tags::OBND, kind: FieldKind::Fixed(w.obnd) },
            FieldRule { record: tags::TERM, field: tags::MODL, kind: FieldKind::Text },
            FieldRule { record: tags::TERM, field: tags::DESC, kind: FieldKind::Localized },
            FieldRule { record: tags::TERM, field: tags::CTDA, kind: FieldKind::Fixed(w.ctda) },
            FieldRule { record: tags::TERM, field: tags::RNAM, kind: FieldKind::Text },
            FieldRule { record: tags::TERM, field: tags::ITXT, kind: FieldKind::Text },
            FieldRule { record: tags::TERM, field: tags::SNAM, kind: FieldKind::Fixed(4) },
            FieldRule { record: tags::TERM, field: tags::SCHR, kind: FieldKind::Fixed(w.schr) },
            FieldRule { record: tags::CONT, field: tags::EDID, kind: FieldKind::Text },
            FieldRule { record: tags::CONT, field: tags::FULL, kind: FieldKind::Localized },
            FieldRule { record: tags::CONT, field: tags::OBND, kind: FieldKind::Fixed(w.obnd) },
            FieldRule { record: tags::CONT, field: tags::MODL, kind: FieldKind::Text },
            FieldRule { record: tags::CONT, field: tags::SCRI, kind: FieldKind::Fixed(4) },
            FieldRule { record: tags::CONT, field: tags::DATA, kind: FieldKind::Fixed(5) },
            FieldRule { record: tags::CONT, field: tags::CNTO, kind: FieldKind::Fixed(w.cnto) },
            FieldRule { record: tags::CONT, field: tags::COED, kind: FieldKind::Fixed(w.coed) },
            FieldRule { record: tags::LIGH, field: tags::EDID, kind: FieldKind::Text },
            FieldRule { record: tags::LIGH, field: tags::OBND, kind: FieldKind::Fixed(w.obnd) },
            FieldRule { record: tags::LIGH, field: tags::MODL, kind: FieldKind::Text },
            FieldRule { record: tags::LIGH, field: tags::SCRI, kind: FieldKind::Fixed(4) },
            FieldRule { record: tags::MISC, field: tags::EDID, kind: FieldKind::Text },
            FieldRule { record: tags::MISC, field: tags::OBND, kind: FieldKind::Fixed(w.obnd) },
            FieldRule { record: tags::MISC, field: tags::MODL, kind: FieldKind::Text },
            FieldRule { record: tags::MISC, field: tags::ICON, kind: FieldKind::Text },
            FieldRule { record: tags::STAT, field: tags::EDID, kind: FieldKind::Text },
            FieldRule { record: tags::STAT, field: tags::FULL, kind: FieldKind::Localized },
            FieldRule { record: tags::STAT, field: tags::OBND, kind: FieldKind::Fixed(w.obnd) },
            FieldRule { record: tags::STAT, field: tags::MODL, kind: FieldKind::Text },
            FieldRule { record: tags::MSTT, field: tags::EDID, kind: FieldKind::Text },
            FieldRule { record: tags::MSTT, field: tags::FULL, kind: FieldKind::Localized },
            FieldRule { record: tags::MSTT, field: tags::OBND, kind: FieldKind::Fixed(w.obnd) },
            FieldRule { record: tags::MSTT, field: tags::MODL, kind: FieldKind::Text },
            FieldRule { record: tags::MSTT, field: tags::DATA, kind: FieldKind::Fixed(1) },
            FieldRule { record: tags::PWAT, field: tags::EDID, kind: FieldKind::Text },
            FieldRule { record: tags::PWAT, field: tags::OBND, kind: FieldKind::Fixed(w.obnd) },
            FieldRule { record: tags::PWAT, field: tags::MODL, kind: FieldKind::Text },
            FieldRule { record: tags::FURN, field: tags::EDID, kind: FieldKind::Text },
            FieldRule { record: tags::FURN, field: tags::FULL, kind: FieldKind::Localized },
            FieldRule { record: tags::FURN, field: tags::OBND, kind: FieldKind::Fixed(w.obnd) },
            FieldRule { record: tags::FURN, field: tags::MODL, kind: FieldKind::Text },
            FieldRule { record: tags::FURN, field: tags::MNAM, kind: FieldKind::Fixed(4) },
            FieldRule { record: tags::WEAP, field: tags::EDID, kind: FieldKind::Text },
            FieldRule { record: tags::WEAP, field: tags::FULL, kind: FieldKind::Localized },
            FieldRule { record: tags::WEAP, field: tags::OBND, kind: FieldKind::Fixed(w.obnd) },
            FieldRule { record: tags::WEAP, field: tags::MODL, kind: FieldKind::Text },
            FieldRule { record: tags::WEAP, field: tags::MOD2, kind: FieldKind::Text },
            FieldRule { record: tags::WEAP, field: tags::MOD3, kind: FieldKind::Text },
            FieldRule { record: tags::WEAP, field: tags::MOD4, kind: FieldKind::Text },
            FieldRule { record: tags::WEAP, field: tags::ICON, kind: FieldKind::Text },
            FieldRule { record: tags::WEAP, field: tags::CRDT, kind: FieldKind::Fixed(w.crdt) },
            FieldRule { record: tags::WEAP, field: tags::EITM, kind: FieldKind::Fixed(4) },
            FieldRule { record: tags::WEAP, field: tags::ETYP, kind: FieldKind::Fixed(4) },
            FieldRule { record: tags::WEAP, field: tags::DATA, kind: FieldKind::Fixed(w.data) },
            FieldRule { record: tags::WEAP, field: tags::REPL, kind: FieldKind::Fixed(4) },
            FieldRule { record: tags::WEAP, field: tags::SCRI, kind: FieldKind::Fixed(4) },
            FieldRule { record: tags::WEAP, field: tags::NAM0, kind: FieldKind::Fixed(4) },
            FieldRule { record: tags::WEAP, field: tags::NAM6, kind: FieldKind::Fixed(4) },
            FieldRule { record: tags::WEAP, field: tags::NAM8, kind: FieldKind::Fixed(4) },
            FieldRule { record: tags::WEAP, field: tags::NAM9, kind: FieldKind::Fixed(4) },
            FieldRule { record: tags::WEAP, field: tags::DNAM, kind: FieldKind::Fixed(w.dnam) },
            FieldRule { record: tags::WEAP, field: tags::INAM, kind: FieldKind::Fixed(4) },
            FieldRule { record: tags::WEAP, field: tags::NNAM, kind: FieldKind::Text },
            FieldRule { record: tags::WEAP, field: tags::SNAM, kind: FieldKind::Fixed(4) },
            FieldRule { record: tags::WEAP, field: tags::TNAM, kind: FieldKind::Fixed(4) },
            FieldRule { record: tags::WEAP, field: tags::UNAM, kind: FieldKind::Fixed(4) },
            FieldRule { record: tags::WEAP, field: tags::VNAM, kind: FieldKind::Fixed(4) },
            FieldRule { record: tags::WEAP, field: tags::WNAM, kind: FieldKind::Fixed(4) },
            FieldRule { record: tags::WEAP, field: tags::XNAM, kind: FieldKind::Fixed(4) },
            FieldRule { record: tags::WEAP, field: tags::YNAM, kind: FieldKind::Fixed(4) },
            FieldRule { record: tags::WEAP, field: tags::ZNAM, kind: FieldKind::Fixed(4) },
            FieldRule { record: tags::AMMO, field: tags::EDID, kind: FieldKind::Text },
            FieldRule { record: tags::AMMO, field: tags::FULL, kind: FieldKind::Localized },
            FieldRule { record: tags::AMMO, field: tags::OBND, kind: FieldKind::Fixed(w.obnd) },
            FieldRule { record: tags::AMMO, field: tags::MODL, kind: FieldKind::Text },
            FieldRule { record: tags::AMMO, field: tags::ICON, kind: FieldKind::Text },
            FieldRule { record: tags::CREA, field: tags::EDID, kind: FieldKind::Text },
            FieldRule { record: tags::CREA, field: tags::FULL, kind: FieldKind::Localized },
            FieldRule { record: tags::CREA, field: tags::OBND, kind: FieldKind::Fixed(w.obnd) },
            FieldRule { record: tags::LVLC, field: tags::EDID, kind: FieldKind::Text },
            FieldRule { record: tags::LVLC, field: tags::OBND, kind: FieldKind::Fixed(w.obnd) },
            FieldRule { record: tags::ALCH, field: tags::EDID, kind: FieldKind::Text },
            FieldRule { record: tags::ALCH, field: tags::FULL, kind: FieldKind::Localized },
            FieldRule { record: tags::ALCH, field: tags::OBND, kind: FieldKind::Fixed(w.obnd) },
            FieldRule { record: tags::ALCH, field: tags::MODL, kind: FieldKind::Text },
            FieldRule { record: tags::ALCH, field: tags::ICON, kind: FieldKind::Text },
            FieldRule { record: tags::ALCH, field: tags::EFID, kind: FieldKind::Fixed(4) },
            FieldRule { record: tags::ALCH, field: tags::EFIT, kind: FieldKind::Fixed(w.efit) },
            FieldRule { record: tags::ALCH, field: tags::CTDA, kind: FieldKind::Fixed(w.ctda) },
            FieldRule { record: tags::NOTE, field: tags::EDID, kind: FieldKind::Text },
            FieldRule { record: tags::NOTE, field: tags::FULL, kind: FieldKind::Localized },
            FieldRule { record: tags::NOTE, field: tags::OBND, kind: FieldKind::Fixed(w.obnd) },
            FieldRule { record: tags::NOTE, field: tags::MODL, kind: FieldKind::Text },
            FieldRule { record: tags::NOTE, field: tags::ICON, kind: FieldKind::Text },
            FieldRule { record: tags::PROJ, field: tags::EDID, kind: FieldKind::Text },
            FieldRule { record: tags::PROJ, field: tags::FULL, kind: FieldKind::Localized },
            FieldRule { record: tags::PROJ, field: tags::OBND, kind: FieldKind::Fixed(w.obnd) },
            FieldRule { record: tags::PROJ, field: tags::MODL, kind: FieldKind::Text },
            FieldRule { record: tags::LVLI, field: tags::EDID, kind: FieldKind::Text },
            FieldRule { record: tags::LVLI, field: tags::OBND, kind: FieldKind::Fixed(w.obnd) },
            FieldRule { record: tags::REGN, field: tags::EDID, kind: FieldKind::Text },
            FieldRule { record: tags::DIAL, field: tags::EDID, kind: FieldKind::Text },
            FieldRule { record: tags::QUST, field: tags::EDID, kind: FieldKind::Text },
            FieldRule { record: tags::PACK, field: tags::EDID, kind: FieldKind::Text },
            FieldRule { record: tags::CSTY, field: tags::EDID, kind: FieldKind::Text },
            FieldRule { record: tags::ANIO, field: tags::EDID, kind: FieldKind::Text },
            FieldRule { record: tags::ANIO, field: tags::MODL, kind: FieldKind::Text },
            FieldRule { record: tags::WATR, field: tags::EDID, kind: FieldKind::Text },
            FieldRule { record: tags::WATR, field: tags::FULL, kind: FieldKind::Localized },
            FieldRule { record: tags::EFSH, field: tags::EDID, kind: FieldKind::Text },
            FieldRule { record: tags::EFSH, field: tags::ICON, kind: FieldKind::Text },
            FieldRule { record: tags::EFSH, field: tags::ICO2, kind: FieldKind::Text },
            FieldRule { record: tags::EXPL, field: tags::EDID, kind: FieldKind::Text },
            FieldRule { record: tags::EXPL, field: tags::FULL, kind: FieldKind::Localized },
            FieldRule { record: tags::EXPL, field: tags::OBND, kind: FieldKind::Fixed(w.obnd) },
            FieldRule { record: tags::EXPL, field: tags::MODL, kind: FieldKind::Text },
            FieldRule { record: tags::DEBR, field: tags::EDID, kind: FieldKind::Text },
            FieldRule { record: tags::IMGS, field: tags::EDID, kind: FieldKind::Text },
            FieldRule { record: tags::FLST, field: tags::EDID, kind: FieldKind::Text },
            FieldRule { record: tags::PERK, field: tags::EDID, kind: FieldKind::Text },
            FieldRule { record: tags::PERK, field: tags::FULL, kind: FieldKind::Localized },
            FieldRule { record: tags::PERK, field: tags::DESC, kind: FieldKind::Localized },
            FieldRule { record: tags::PERK, field: tags::ICON, kind: FieldKind::Text },
            FieldRule { record: tags::BPTD, field: tags::EDID, kind: FieldKind::Text },
            FieldRule { record: tags::BPTD, field: tags::MODL, kind: FieldKind::Text },
            FieldRule { record: tags::ADDN, field: tags::EDID, kind: FieldKind::Text },
            FieldRule { record: tags::ADDN, field: tags::OBND, kind: FieldKind::Fixed(w.obnd) },
            FieldRule { record: tags::ADDN, field: tags::MODL, kind: FieldKind::Text },
            FieldRule { record: tags::CAMS, field: tags::EDID, kind: FieldKind::Text },
            FieldRule { record: tags::CPTH, field: tags::EDID, kind: FieldKind::Text },
            FieldRule { record: tags::CPTH, field: tags::MODL, kind: FieldKind::Text },
            FieldRule { record: tags::CPTH, field: tags::CTDA, kind: FieldKind::Fixed(w.ctda) },
            FieldRule { record: tags::VTYP, field: tags::EDID, kind: FieldKind::Text },
            FieldRule { record: tags::IPCT, field: tags::EDID, kind: FieldKind::Text },
            FieldRule { record: tags::IPCT, field: tags::MODL, kind: FieldKind::Text },
            FieldRule { record: tags::IPDS, field: tags::EDID, kind: FieldKind::Text },
            FieldRule { record: tags::ARMA, field: tags::EDID, kind: FieldKind::Text },
            FieldRule { record: tags::ARMA, field: tags::FULL, kind: FieldKind::Localized },
            FieldRule { record: tags::ARMA, field: tags::OBND, kind: FieldKind::Fixed(w.obnd) },
            FieldRule { record: tags::ARMA, field: tags::MODL, kind: FieldKind::Text },
            FieldRule { record: tags::ARMA, field: tags::MOD3, kind: FieldKind::Text },
            FieldRule { record: tags::ECZN, field: tags::EDID, kind: FieldKind::Text },
            FieldRule { record: tags::MESG, field: tags::EDID, kind: FieldKind::Text },
            FieldRule { record: tags::MESG, field: tags::FULL, kind: FieldKind::Localized },
            FieldRule { record: tags::MESG, field: tags::DESC, kind: FieldKind::Localized },
            FieldRule { record: tags::RGDL, field: tags::EDID, kind: FieldKind::Text },
            FieldRule { record: tags::WRLD, field: tags::EDID, kind: FieldKind::Text },
            FieldRule { record: tags::WRLD, field: tags::FULL, kind: FieldKind::Localized },
            FieldRule { record: tags::WRLD, field: tags::CNAM, kind: FieldKind::Fixed(4) },
            FieldRule { record: tags::WRLD, field: tags::XXXX, kind: FieldKind::Extended },
            FieldRule { record: tags::TACT, field: tags::EDID, kind: FieldKind::Text },
            FieldRule { record: tags::TACT, field: tags::FULL, kind: FieldKind::Localized },
            FieldRule { record: tags::TACT, field: tags::OBND, kind: FieldKind::Fixed(w.obnd) },
            FieldRule { record: tags::TACT, field: tags::MODL, kind: FieldKind::Text },
            FieldRule { record: tags::TACT, field: tags::VNAM, kind: FieldKind::Fixed(4) },
            FieldRule { record: tags::TACT, field: tags::SCRI, kind: FieldKind::Fixed(4) },
            FieldRule { record: tags::ARMO, field: tags::EDID, kind: FieldKind::Text },
            FieldRule { record: tags::ARMO, field: tags::FULL, kind: FieldKind::Localized },
            FieldRule { record: tags::ARMO, field: tags::OBND, kind: FieldKind::Fixed(w.obnd) },
            FieldRule { record: tags::ARMO, field: tags::EITM, kind: FieldKind::Fixed(4) },
            FieldRule { record: tags::ARMO, field: tags::ICON, kind: FieldKind::Text },
            FieldRule { record: tags::ARMO, field: tags::MODL, kind: FieldKind::Text },
            FieldRule { record: tags::ARMO, field: tags::MODS, kind: FieldKind::Text },
            FieldRule { record: tags::ARMO, field: tags::MOD2, kind: FieldKind::Text },
            FieldRule { record: tags::ARMO, field: tags::MOD3, kind: FieldKind::Text },
            FieldRule { record: tags::ARMO, field: tags::MO2S, kind: FieldKind::Text },
            FieldRule { record: tags::ARMO, field: tags::MO3S, kind: FieldKind::Text },
            FieldRule { record: tags::DOOR, field: tags::EDID, kind: FieldKind::Text },
            FieldRule { record: tags::DOOR, field: tags::FULL, kind: FieldKind::Localized },
            FieldRule { record: tags::DOOR, field: tags::OBND, kind: FieldKind::Fixed(w.obnd) },
            FieldRule { record: tags::DOOR, field: tags::SCRI, kind: FieldKind::Fixed(4) },
            FieldRule { record: tags::DOOR, field: tags::MODL, kind: FieldKind::Text },
            FieldRule { record: tags::SCOL, field: tags::EDID, kind: FieldKind::Text },
            FieldRule { record: tags::SCOL, field: tags::OBND, kind: FieldKind::Fixed(w.obnd) },
            FieldRule { record: tags::SCOL, field: tags::MODL, kind: FieldKind::Text },
            FieldRule { record: tags::IDLM, field: tags::EDID, kind: FieldKind::Text },
            FieldRule { record: tags::IDLM, field: tags::OBND, kind: FieldKind::Fixed(w.obnd) },
            FieldRule { record: tags::CELL, field: tags::EDID, kind: FieldKind::Text },
            FieldRule { record: tags::CELL, field: tags::FULL, kind: FieldKind::Localized },
            FieldRule { record: tags::ACRE, field: tags::EDID, kind: FieldKind::Text },
        ],
    }
}

} // verus!
