//! Four-character tags of the records and fields that the Fallout 3 table
//! names, packed first byte lowest.
use vstd::prelude::*;

verus! {

pub const ACHR: u32 = 0x52484341;
pub const ACRE: u32 = 0x45524341;
pub const ACTI: u32 = 0x49544341;
pub const ADDN: u32 = 0x4E444441;
pub const ALCH: u32 = 0x48434C41;
pub const AMMO: u32 = 0x4F4D4D41;
pub const ANAM: u32 = 0x4D414E41;
pub const ANIO: u32 = 0x4F494E41;
pub const ARMA: u32 = 0x414D5241;
pub const ARMO: u32 = 0x4F4D5241;
pub const ASPC: u32 = 0x43505341;
pub const ATTR: u32 = 0x52545441;
pub const BNAM: u32 = 0x4D414E42;
pub const BPTD: u32 = 0x44545042;
pub const CAMS: u32 = 0x534D4143;
pub const CELL: u32 = 0x4C4C4543;
pub const CLAS: u32 = 0x53414C43;
pub const CNAM: u32 = 0x4D414E43;
pub const CNTO: u32 = 0x4F544E43;
pub const COED: u32 = 0x44454F43;
pub const CONT: u32 = 0x544E4F43;
pub const CPTH: u32 = 0x48545043;
pub const CRDT: u32 = 0x54445243;
pub const CREA: u32 = 0x41455243;
pub const CSTY: u32 = 0x59545343;
pub const CTDA: u32 = 0x41445443;
pub const DATA: u32 = 0x41544144;
pub const DEBR: u32 = 0x52424544;
pub const DESC: u32 = 0x43534544;
pub const DEST: u32 = 0x54534544;
pub const DIAL: u32 = 0x4C414944;
pub const DMDL: u32 = 0x4C444D44;
pub const DNAM: u32 = 0x4D414E44;
pub const DOOR: u32 = 0x524F4F44;
pub const DSTD: u32 = 0x44545344;
pub const DSTF: u32 = 0x46545344;
pub const ECZN: u32 = 0x4E5A4345;
pub const EDID: u32 = 0x44494445;
pub const EFID: u32 = 0x44494645;
pub const EFIT: u32 = 0x54494645;
pub const EFSH: u32 = 0x48534645;
pub const EITM: u32 = 0x4D544945;
pub const ENCH: u32 = 0x48434E45;
pub const ENIT: u32 = 0x54494E45;
pub const ETYP: u32 = 0x50595445;
pub const EXPL: u32 = 0x4C505845;
pub const FACT: u32 = 0x54434146;
pub const FLST: u32 = 0x54534C46;
pub const FLTV: u32 = 0x56544C46;
pub const FNAM: u32 = 0x4D414E46;
pub const FULL: u32 = 0x4C4C5546;
pub const FURN: u32 = 0x4E525546;
pub const GLOB: u32 = 0x424F4C47;
pub const HEDR: u32 = 0x52444548;
pub const ICO2: u32 = 0x324F4349;
pub const ICON: u32 = 0x4E4F4349;
pub const IDLE: u32 = 0x454C4449;
pub const IDLM: u32 = 0x4D4C4449;
pub const IMAD: u32 = 0x44414D49;
pub const IMGS: u32 = 0x53474D49;
pub const INAM: u32 = 0x4D414E49;
pub const INFO: u32 = 0x4F464E49;
pub const IPCT: u32 = 0x54435049;
pub const IPDS: u32 = 0x53445049;
pub const ITXT: u32 = 0x54585449;
pub const LIGH: u32 = 0x4847494C;
pub const LVLC: u32 = 0x434C564C;
pub const LVLI: u32 = 0x494C564C;
pub const MAST: u32 = 0x5453414D;
pub const MESG: u32 = 0x4753454D;
pub const MGEF: u32 = 0x4645474D;
pub const MISC: u32 = 0x4353494D;
pub const MNAM: u32 = 0x4D414E4D;
pub const MO2S: u32 = 0x53324F4D;
pub const MO3S: u32 = 0x53334F4D;
pub const MOD2: u32 = 0x32444F4D;
pub const MOD3: u32 = 0x33444F4D;
pub const MOD4: u32 = 0x34444F4D;
pub const MODL: u32 = 0x4C444F4D;
pub const MODS: u32 = 0x53444F4D;
pub const MSTT: u32 = 0x5454534D;
pub const NAM0: u32 = 0x304D414E;
pub const NAM6: u32 = 0x364D414E;
pub const NAM8: u32 = 0x384D414E;
pub const NAM9: u32 = 0x394D414E;
pub const NAVI: u32 = 0x4956414E;
pub const NAVM: u32 = 0x4D56414E;
pub const NNAM: u32 = 0x4D414E4E;
pub const NOTE: u32 = 0x45544F4E;
pub const NPC_: u32 = 0x5F43504E;
pub const OBND: u32 = 0x444E424F;
pub const ONAM: u32 = 0x4D414E4F;
pub const PACK: u32 = 0x4B434150;
pub const PERK: u32 = 0x4B524550;
pub const PROJ: u32 = 0x4A4F5250;
pub const PWAT: u32 = 0x54415750;
pub const QUST: u32 = 0x54535551;
pub const RDAT: u32 = 0x54414452;
pub const REFR: u32 = 0x52464552;
pub const REGN: u32 = 0x4E474552;
pub const REPL: u32 = 0x4C504552;
pub const RGDL: u32 = 0x4C444752;
pub const RNAM: u32 = 0x4D414E52;
pub const SCHR: u32 = 0x52484353;
pub const SCOL: u32 = 0x4C4F4353;
pub const SCPT: u32 = 0x54504353;
pub const SCRI: u32 = 0x49524353;
pub const SDSC: u32 = 0x43534453;
pub const SNAM: u32 = 0x4D414E53;
pub const SNDD: u32 = 0x44444E53;
pub const SOUN: u32 = 0x4E554F53;
pub const SPEL: u32 = 0x4C455053;
pub const SPIT: u32 = 0x54495053;
pub const STAT: u32 = 0x54415453;
pub const TACT: u32 = 0x54434154;
pub const TERM: u32 = 0x4D524554;
pub const TNAM: u32 = 0x4D414E54;
pub const TXST: u32 = 0x54535854;
pub const UNAM: u32 = 0x4D414E55;
pub const VNAM: u32 = 0x4D414E56;
pub const VTYP: u32 = 0x50595456;
pub const WATR: u32 = 0x52544157;
pub const WEAP: u32 = 0x50414557;
pub const WNAM: u32 = 0x4D414E57;
pub const WRLD: u32 = 0x444C5257;
pub const XNAM: u32 = 0x4D414E58;
pub const XXXX: u32 = 0x58585858;
pub const YNAM: u32 = 0x4D414E59;
pub const ZNAM: u32 = 0x4D414E5A;

} // verus!
