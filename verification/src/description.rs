//! The constant target-description document and the breakpoint-kind marker.

use vstd::prelude::*;

verus! {

/// The target architecture marker; the description it carries is constant,
/// so the type holds no data.
pub struct MOSArch;

/// The characters of the constant target-description document. The document
/// names the architecture, defines the four status-flag bits at their bit
/// positions, groups the auxiliary registers into their 8-bit and 16-bit
/// banks, and lists every defined register with its name, bit size, byte
/// offset within the 42-byte wire image, protocol index and, for
/// CPU-visible registers, its debug-info register number.
pub open spec fn target_description_text() -> Seq<char> {
    r#"
        <?xml version="1.0"?>
        <!DOCTYPE target SYSTEM "gdb-target.dtd">
        <target version="1.0">
            <architecture>mos</architecture>
            <flags id="flags" size="1">
                <field name="C" start="0" end="0" type="bool" />
                <field name="Z" start="1" end="1" type="bool" />
                <field name="V" start="6" end="6" type="bool" />
                <field name="N" start="7" end="7" type="bool" />
            </flags>
            <groups>
                <group id="1" name="imaginary, 8-bit"></group>
                <group id="2" name="imaginary, 16-bit"></group>
            </groups>
            <feature name="org.gnu.gdb.mos">
                <reg name="PC" bitsize="16" offset="0" regnum="0" generic="pc" />
                <reg name="A" bitsize="8" offset="2" regnum="1" dwarf_regnum="0" />
                <reg name="X" bitsize="8" offset="3" regnum="2" dwarf_regnum="2" />
                <reg name="Y" bitsize="8" offset="4" regnum="3" dwarf_regnum="4" />
                <reg name="S" bitsize="8" offset="5" regnum="4" />
                <reg name="C" bitsize="1" offset="6" regnum="5" />
                <reg name="Z" bitsize="1" offset="7" regnum="6" />
                <reg name="V" bitsize="1" offset="8" regnum="7" />
                <reg name="N" bitsize="1" offset="9" regnum="8" />
                <reg name="RC0" group_id="1" bitsize="8" offset="10" regnum="9" dwarf_regnum="16" />
                <reg name="RC1" group_id="1" bitsize="8" offset="11" regnum="10" dwarf_regnum="18" />
                <reg name="RC2" group_id="1" bitsize="8" offset="12" regnum="11" dwarf_regnum="20" />
                <reg name="RC3" group_id="1" bitsize="8" offset="13" regnum="12" dwarf_regnum="22" />
                <reg name="RC4" group_id="1" bitsize="8" offset="14" regnum="13" dwarf_regnum="24" />
                <reg name="RC5" group_id="1" bitsize="8" offset="15" regnum="14" dwarf_regnum="26" />
                <reg name="RC6" group_id="1" bitsize="8" offset="16" regnum="15" dwarf_regnum="28" />
                <reg name="RC7" group_id="1" bitsize="8" offset="17" regnum="16" dwarf_regnum="30" />
                <reg name="RC8" group_id="1" bitsize="8" offset="18" regnum="17" dwarf_regnum="32" />
                <reg name="RC9" group_id="1" bitsize="8" offset="19" regnum="18" dwarf_regnum="34" />
                <reg name="RC10" group_id="1" bitsize="8" offset="20" regnum="19" dwarf_regnum="36" />
                <reg name="RC11" group_id="1" bitsize="8" offset="21" regnum="20" dwarf_regnum="38" />
                <reg name="RC12" group_id="1" bitsize="8" offset="22" regnum="21" dwarf_regnum="40" />
                <reg name="RC13" group_id="1" bitsize="8" offset="23" regnum="22" dwarf_regnum="42" />
                <reg name="RC14" group_id="1" bitsize="8" offset="24" regnum="23" dwarf_regnum="44" />
                <reg name="RC15" group_id="1" bitsize="8" offset="25" regnum="24" dwarf_regnum="46" />
                <reg name="RC16" group_id="1" bitsize="8" offset="26" regnum="25" dwarf_regnum="48" />
                <reg name="RC17" group_id="1" bitsize="8" offset="27" regnum="26" dwarf_regnum="50" />
                <reg name="RC18" group_id="1" bitsize="8" offset="28" regnum="27" dwarf_regnum="52" />
                <reg name="RC19" group_id="1" bitsize="8" offset="29" regnum="28" dwarf_regnum="54" />
                <reg name="RC20" group_id="1" bitsize="8" offset="30" regnum="29" dwarf_regnum="56" />
                <reg name="RC21" group_id="1" bitsize="8" offset="31" regnum="30" dwarf_regnum="58" />
                <reg name="RC22" group_id="1" bitsize="8" offset="32" regnum="31" dwarf_regnum="60" />
                <reg name="RC23" group_id="1" bitsize="8" offset="33" regnum="32" dwarf_regnum="62" />
                <reg name="RC24" group_id="1" bitsize="8" offset="34" regnum="33" dwarf_regnum="64" />
                <reg name="RC25" group_id="1" bitsize="8" offset="35" regnum="34" dwarf_regnum="66" />
                <reg name="RC26" group_id="1" bitsize="8" offset="36" regnum="35" dwarf_regnum="68" />
                <reg name="RC27" group_id="1" bitsize="8" offset="37" regnum="36" dwarf_regnum="70" />
                <reg name="RC28" group_id="1" bitsize="8" offset="38" regnum="37" dwarf_regnum="72" />
                <reg name="RC29" group_id="1" bitsize="8" offset="39" regnum="38" dwarf_regnum="74" />
                <reg name="RC30" group_id="1" bitsize="8" offset="40" regnum="39" dwarf_regnum="76" />
                <reg name="RC31" group_id="1" bitsize="8" offset="41" regnum="40" dwarf_regnum="78" />
                <reg name="RS0" group_id="2" bitsize="16" offset="10" regnum="41" dwarf_regnum="528" />
                <reg name="RS1" group_id="2" bitsize="16" offset="12" regnum="42" dwarf_regnum="529" />
                <reg name="RS2" group_id="2" bitsize="16" offset="14" regnum="43" dwarf_regnum="530" />
                <reg name="RS3" group_id="2" bitsize="16" offset="16" regnum="44" dwarf_regnum="531" />
                <reg name="RS4" group_id="2" bitsize="16" offset="18" regnum="45" dwarf_regnum="532" />
                <reg name="RS5" group_id="2" bitsize="16" offset="20" regnum="46" dwarf_regnum="533" />
                <reg name="RS6" group_id="2" bitsize="16" offset="22" regnum="47" dwarf_regnum="534" />
                <reg name="RS7" group_id="2" bitsize="16" offset="24" regnum="48" dwarf_regnum="535" />
                <reg name="RS8" group_id="2" bitsize="16" offset="26" regnum="49" dwarf_regnum="536" />
                <reg name="RS9" group_id="2" bitsize="16" offset="28" regnum="50" dwarf_regnum="537" />
                <reg name="RS10" group_id="2" bitsize="16" offset="30" regnum="51" dwarf_regnum="538" />
                <reg name="RS11" group_id="2" bitsize="16" offset="32" regnum="52" dwarf_regnum="539" />
                <reg name="RS12" group_id="2" bitsize="16" offset="34" regnum="53" dwarf_regnum="540" />
                <reg name="RS13" group_id="2" bitsize="16" offset="36" regnum="54" dwarf_regnum="541" />
                <reg name="RS14" group_id="2" bitsize="16" offset="38" regnum="55" dwarf_regnum="542" />
                <reg name="RS15" group_id="2" bitsize="16" offset="40" regnum="56" dwarf_regnum="543" />
            </feature>
        </target>
        "#@
}

impl MOSArch {
    /// The target-description document, identical on every call: its view
    /// always equals `target_description_text`.
    pub fn target_description_xml() -> (r: &'static str)
        ensures
            r@ == target_description_text(),
    {
        r#"
        <?xml version="1.0"?>
        <!DOCTYPE target SYSTEM "gdb-target.dtd">
        <target version="1.0">
            <architecture>mos</architecture>
            <flags id="flags" size="1">
                <field name="C" start="0" end="0" type="bool" />
                <field name="Z" start="1" end="1" type="bool" />
                <field name="V" start="6" end="6" type="bool" />
                <field name="N" start="7" end="7" type="bool" />
            </flags>
            <groups>
                <group id="1" name="imaginary, 8-bit"></group>
                <group id="2" name="imaginary, 16-bit"></group>
            </groups>
            <feature name="org.gnu.gdb.mos">
                <reg name="PC" bitsize="16" offset="0" regnum="0" generic="pc" />
                <reg name="A" bitsize="8" offset="2" regnum="1" dwarf_regnum="0" />
                <reg name="X" bitsize="8" offset="3" regnum="2" dwarf_regnum="2" />
                <reg name="Y" bitsize="8" offset="4" regnum="3" dwarf_regnum="4" />
                <reg name="S" bitsize="8" offset="5" regnum="4" />
                <reg name="C" bitsize="1" offset="6" regnum="5" />
                <reg name="Z" bitsize="1" offset="7" regnum="6" />
                <reg name="V" bitsize="1" offset="8" regnum="7" />
                <reg name="N" bitsize="1" offset="9" regnum="8" />
                <reg name="RC0" group_id="1" bitsize="8" offset="10" regnum="9" dwarf_regnum="16" />
                <reg name="RC1" group_id="1" bitsize="8" offset="11" regnum="10" dwarf_regnum="18" />
                <reg name="RC2" group_id="1" bitsize="8" offset="12" regnum="11" dwarf_regnum="20" />
                <reg name="RC3" group_id="1" bitsize="8" offset="13" regnum="12" dwarf_regnum="22" />
                <reg name="RC4" group_id="1" bitsize="8" offset="14" regnum="13" dwarf_regnum="24" />
                <reg name="RC5" group_id="1" bitsize="8" offset="15" regnum="14" dwarf_regnum="26" />
                <reg name="RC6" group_id="1" bitsize="8" offset="16" regnum="15" dwarf_regnum="28" />
                <reg name="RC7" group_id="1" bitsize="8" offset="17" regnum="16" dwarf_regnum="30" />
                <reg name="RC8" group_id="1" bitsize="8" offset="18" regnum="17" dwarf_regnum="32" />
                <reg name="RC9" group_id="1" bitsize="8" offset="19" regnum="18" dwarf_regnum="34" />
                <reg name="RC10" group_id="1" bitsize="8" offset="20" regnum="19" dwarf_regnum="36" />
                <reg name="RC11" group_id="1" bitsize="8" offset="21" regnum="20" dwarf_regnum="38" />
                <reg name="RC12" group_id="1" bitsize="8" offset="22" regnum="21" dwarf_regnum="40" />
                <reg name="RC13" group_id="1" bitsize="8" offset="23" regnum="22" dwarf_regnum="42" />
                <reg name="RC14" group_id="1" bitsize="8" offset="24" regnum="23" dwarf_regnum="44" />
                <reg name="RC15" group_id="1" bitsize="8" offset="25" regnum="24" dwarf_regnum="46" />
                <reg name="RC16" group_id="1" bitsize="8" offset="26" regnum="25" dwarf_regnum="48" />
                <reg name="RC17" group_id="1" bitsize="8" offset="27" regnum="26" dwarf_regnum="50" />
                <reg name="RC18" group_id="1" bitsize="8" offset="28" regnum="27" dwarf_regnum="52" />
                <reg name="RC19" group_id="1" bitsize="8" offset="29" regnum="28" dwarf_regnum="54" />
                <reg name="RC20" group_id="1" bitsize="8" offset="30" regnum="29" dwarf_regnum="56" />
                <reg name="RC21" group_id="1" bitsize="8" offset="31" regnum="30" dwarf_regnum="58" />
                <reg name="RC22" group_id="1" bitsize="8" offset="32" regnum="31" dwarf_regnum="60" />
                <reg name="RC23" group_id="1" bitsize="8" offset="33" regnum="32" dwarf_regnum="62" />
                <reg name="RC24" group_id="1" bitsize="8" offset="34" regnum="33" dwarf_regnum="64" />
                <reg name="RC25" group_id="1" bitsize="8" offset="35" regnum="34" dwarf_regnum="66" />
                <reg name="RC26" group_id="1" bitsize="8" offset="36" regnum="35" dwarf_regnum="68" />
                <reg name="RC27" group_id="1" bitsize="8" offset="37" regnum="36" dwarf_regnum="70" />
                <reg name="RC28" group_id="1" bitsize="8" offset="38" regnum="37" dwarf_regnum="72" />
                <reg name="RC29" group_id="1" bitsize="8" offset="39" regnum="38" dwarf_regnum="74" />
                <reg name="RC30" group_id="1" bitsize="8" offset="40" regnum="39" dwarf_regnum="76" />
                <reg name="RC31" group_id="1" bitsize="8" offset="41" regnum="40" dwarf_regnum="78" />
                <reg name="RS0" group_id="2" bitsize="16" offset="10" regnum="41" dwarf_regnum="528" />
                <reg name="RS1" group_id="2" bitsize="16" offset="12" regnum="42" dwarf_regnum="529" />
                <reg name="RS2" group_id="2" bitsize="16" offset="14" regnum="43" dwarf_regnum="530" />
                <reg name="RS3" group_id="2" bitsize="16" offset="16" regnum="44" dwarf_regnum="531" />
                <reg name="RS4" group_id="2" bitsize="16" offset="18" regnum="45" dwarf_regnum="532" />
                <reg name="RS5" group_id="2" bitsize="16" offset="20" regnum="46" dwarf_regnum="533" />
                <reg name="RS6" group_id="2" bitsize="16" offset="22" regnum="47" dwarf_regnum="534" />
                <reg name="RS7" group_id="2" bitsize="16" offset="24" regnum="48" dwarf_regnum="535" />
                <reg name="RS8" group_id="2" bitsize="16" offset="26" regnum="49" dwarf_regnum="536" />
                <reg name="RS9" group_id="2" bitsize="16" offset="28" regnum="50" dwarf_regnum="537" />
                <reg name="RS10" group_id="2" bitsize="16" offset="30" regnum="51" dwarf_regnum="538" />
                <reg name="RS11" group_id="2" bitsize="16" offset="32" regnum="52" dwarf_regnum="539" />
                <reg name="RS12" group_id="2" bitsize="16" offset="34" regnum="53" dwarf_regnum="540" />
                <reg name="RS13" group_id="2" bitsize="16" offset="36" regnum="54" dwarf_regnum="541" />
                <reg name="RS14" group_id="2" bitsize="16" offset="38" regnum="55" dwarf_regnum="542" />
                <reg name="RS15" group_id="2" bitsize="16" offset="40" regnum="56" dwarf_regnum="543" />
            </feature>
        </target>
        "#
    }
}

/// The single defined breakpoint kind: the target architecture has one
/// fixed-width instruction encoding, so one kind suffices.
#[derive(Debug, Clone, Copy, PartialEq, Eq, Structural)]
pub enum MosBreakpointKind {
    /// The one fixed-width breakpoint encoding of the target.
    Regular,
}

impl MosBreakpointKind {
    /// Classifies a raw protocol breakpoint-kind tag; every tag resolves to
    /// the single defined kind.
    pub fn from_usize(_kind: usize) -> (r: Option<MosBreakpointKind>)
        ensures
            r == Some(MosBreakpointKind::Regular),
    {
        Some(MosBreakpointKind::Regular)
    }
}

} // verus!
