use vstd::prelude::*;

use crate::catalog::{lemma_group_distinct_rows, lemma_select_distinct, lemma_select_rows, row_hit, row_pattern, select_rows, spec_match, PatternRow};
use crate::hexcode::is_hex_text;
use crate::import::{opt_str_view, NewSignature};
use crate::types::{opt_view, MagicPattern, PatternView};

verus! {

/// A built-in signature: type name, MIME type, extension, and the offset and
/// uppercase hexadecimal bytes of its magic pattern.
#[derive(Debug, Clone, Copy)]
pub struct SigDef {
    pub name: &'static str,
    pub mime: Option<&'static str>,
    pub extension: Option<&'static str>,
    pub offset: i64,
    pub hex: &'static str,
}

/// A well-formed built-in signature: a non-empty name, a MIME type, an
/// extension (where it has one) that starts with a dot, and a pattern of
/// non-empty uppercase hexadecimal text at a non-negative offset.
pub open spec fn sig_def_ok(d: SigDef) -> bool {
    &&& d.name@.len() > 0
    &&& d.mime is Some
    &&& (d.extension matches Some(e) ==> e@.len() > 1 && e@[0] == '.')
    &&& is_hex_text(d.hex@)
    &&& d.hex@.len() > 0
    &&& d.offset >= 0
}

/// Every built-in signature of the list is well formed.
pub open spec fn all_ok(s: Seq<SigDef>) -> bool {
    forall|i: int| 0 <= i < s.len() ==> sig_def_ok(#[trigger] s[i])
}

fn def(
    v: &mut Vec<SigDef>,
    name: &'static str,
    mime: Option<&'static str>,
    extension: Option<&'static str>,
    offset: i64,
    hex: &'static str,
)
    requires
        all_ok(old(v)@),
        sig_def_ok(SigDef { name, mime, extension, offset, hex }),
    ensures
        final(v)@ == old(v)@.push(SigDef { name, mime, extension, offset, hex }),
        all_ok(final(v)@),
{
    v.push(SigDef { name, mime, extension, offset, hex });
    assert(sig_def_ok(v@[v@.len() - 1]));
}

/// Entries 1 to 28 of the signatures that seed the database.
pub open spec fn seed_chunk_1() -> Seq<SigDef> {
    seq![
        SigDef { name: "ZIP archive", mime: Some("application/zip"), extension: Some(".zip"), offset: 0, hex: "504B0304" },
        SigDef { name: "ZIP empty archive", mime: Some("application/zip"), extension: Some(".zip"), offset: 0, hex: "504B0506" },
        SigDef { name: "ZIP spanned archive", mime: Some("application/zip"), extension: Some(".zip"), offset: 0, hex: "504B0708" },
        SigDef { name: "RAR archive v1.5", mime: Some("application/vnd.rar"), extension: Some(".rar"), offset: 0, hex: "526172211A0700" },
        SigDef { name: "RAR archive v5", mime: Some("application/vnd.rar"), extension: Some(".rar"), offset: 0, hex: "526172211A070100" },
        SigDef { name: "7-Zip archive", mime: Some("application/x-7z-compressed"), extension: Some(".7z"), offset: 0, hex: "377ABCAF271C" },
        SigDef { name: "GZIP compressed", mime: Some("application/gzip"), extension: Some(".gz"), offset: 0, hex: "1F8B08" },
        SigDef { name: "BZIP2 compressed", mime: Some("application/x-bzip2"), extension: Some(".bz2"), offset: 0, hex: "425A68" },
        SigDef { name: "XZ compressed", mime: Some("application/x-xz"), extension: Some(".xz"), offset: 0, hex: "FD377A585A00" },
        SigDef { name: "TAR POSIX archive", mime: Some("application/x-tar"), extension: Some(".tar"), offset: 257, hex: "757374617200" },
        SigDef { name: "TAR GNU archive", mime: Some("application/x-tar"), extension: Some(".tar"), offset: 257, hex: "757374617220" },
        SigDef { name: "Zstandard compressed", mime: Some("application/zstd"), extension: Some(".zst"), offset: 0, hex: "28B52FFD" },
        SigDef { name: "LZ4 compressed", mime: Some("application/x-lz4"), extension: Some(".lz4"), offset: 0, hex: "04224D18" },
        SigDef { name: "CAB archive", mime: Some("application/vnd.ms-cab-compressed"), extension: Some(".cab"), offset: 0, hex: "4D534346" },
        SigDef { name: "Unix AR archive", mime: Some("application/x-archive"), extension: Some(".a"), offset: 0, hex: "213C617263683E0A" },
        SigDef { name: "ARJ archive", mime: Some("application/x-arj"), extension: Some(".arj"), offset: 0, hex: "60EA" },
        SigDef { name: "LHA/LZH archive", mime: Some("application/x-lzh"), extension: Some(".lzh"), offset: 0, hex: "2D6C68" },
        SigDef { name: "StuffIt SIT archive", mime: Some("application/x-stuffit"), extension: Some(".sit"), offset: 0, hex: "5374756666497421" },
        SigDef { name: "InstallShield CAB", mime: Some("application/vnd.ms-cab-compressed"), extension: Some(".cab"), offset: 0, hex: "49534328" },
        SigDef { name: "Brotli compressed", mime: Some("application/brotli"), extension: Some(".br"), offset: 0, hex: "CEB2CF81" },
        SigDef { name: "WIM archive", mime: Some("application/x-ms-wim"), extension: Some(".wim"), offset: 0, hex: "4D534F52" },
        SigDef { name: "Snappy framed", mime: Some("application/x-snappy"), extension: None, offset: 0, hex: "FF0600736E617037" },
        SigDef { name: "LZ4 legacy", mime: Some("application/x-lz4"), extension: Some(".lz4"), offset: 0, hex: "02214C18" },
        SigDef { name: "Zstd skippable frame", mime: Some("application/zstd"), extension: Some(".zst"), offset: 0, hex: "18422A18" },
        SigDef { name: "SquashFS (LE)", mime: Some("application/x-squashfs"), extension: Some(".squashfs"), offset: 0, hex: "68737173" },
        SigDef { name: "SquashFS (BE)", mime: Some("application/x-squashfs"), extension: Some(".squashfs"), offset: 0, hex: "73717368" },
        SigDef { name: "ROMFS filesystem", mime: Some("application/x-romfs"), extension: Some(".romfs"), offset: 0, hex: "2D726F6D31" },
        SigDef { name: "CPIO archive", mime: Some("application/x-cpio"), extension: Some(".cpio"), offset: 0, hex: "3037303730" },
    ]
}

/// Entries 29 to 56 of the signatures that seed the database.
pub open spec fn seed_chunk_2() -> Seq<SigDef> {
    seq![
        SigDef { name: "PNG image", mime: Some("image/png"), extension: Some(".png"), offset: 0, hex: "89504E470D0A1A0A" },
        SigDef { name: "JPEG image", mime: Some("image/jpeg"), extension: Some(".jpg"), offset: 0, hex: "FFD8FF" },
        SigDef { name: "JPEG Exif", mime: Some("image/jpeg"), extension: Some(".jpg"), offset: 0, hex: "FFD8FFE1" },
        SigDef { name: "JPEG JFIF", mime: Some("image/jpeg"), extension: Some(".jpg"), offset: 0, hex: "FFD8FFE0" },
        SigDef { name: "GIF87a", mime: Some("image/gif"), extension: Some(".gif"), offset: 0, hex: "474946383761" },
        SigDef { name: "GIF89a", mime: Some("image/gif"), extension: Some(".gif"), offset: 0, hex: "474946383961" },
        SigDef { name: "BMP image", mime: Some("image/bmp"), extension: Some(".bmp"), offset: 0, hex: "424D" },
        SigDef { name: "WebP image (RIFF)", mime: Some("image/webp"), extension: Some(".webp"), offset: 0, hex: "52494646" },
        SigDef { name: "TIFF little-endian", mime: Some("image/tiff"), extension: Some(".tiff"), offset: 0, hex: "49492A00" },
        SigDef { name: "TIFF big-endian", mime: Some("image/tiff"), extension: Some(".tiff"), offset: 0, hex: "4D4D002A" },
        SigDef { name: "ICO icon", mime: Some("image/vnd.microsoft.icon"), extension: Some(".ico"), offset: 0, hex: "00000100" },
        SigDef { name: "CUR cursor", mime: Some("image/x-win-bitmap"), extension: Some(".cur"), offset: 0, hex: "00000200" },
        SigDef { name: "Photoshop PSD", mime: Some("image/vnd.adobe.photoshop"), extension: Some(".psd"), offset: 0, hex: "38425053" },
        SigDef { name: "GIMP XCF", mime: Some("image/x-xcf"), extension: Some(".xcf"), offset: 0, hex: "67696D702078636620" },
        SigDef { name: "HEIC image (heix)", mime: Some("image/heif"), extension: Some(".heic"), offset: 4, hex: "6674797068656978" },
        SigDef { name: "AVIF image (avif)", mime: Some("image/avif"), extension: Some(".avif"), offset: 4, hex: "6674797061766966" },
        SigDef { name: "DDS texture", mime: Some("image/vnd.ms-dds"), extension: Some(".dds"), offset: 0, hex: "44445320" },
        SigDef { name: "JPEG 2000 JP2", mime: Some("image/jp2"), extension: Some(".jp2"), offset: 0, hex: "0000000C6A502020" },
        SigDef { name: "JPEG 2000 J2K", mime: Some("image/jp2"), extension: Some(".j2k"), offset: 0, hex: "FF4FFF51" },
        SigDef { name: "OpenEXR", mime: Some("image/x-exr"), extension: Some(".exr"), offset: 0, hex: "762F3101" },
        SigDef { name: "TGA image", mime: Some("image/x-tga"), extension: Some(".tga"), offset: 0, hex: "000002" },
        SigDef { name: "PCX image", mime: Some("image/x-pcx"), extension: Some(".pcx"), offset: 0, hex: "0A" },
        SigDef { name: "PBM bitmap (binary)", mime: Some("image/x-portable-bitmap"), extension: Some(".pbm"), offset: 0, hex: "5034" },
        SigDef { name: "PGM graymap (binary)", mime: Some("image/x-portable-graymap"), extension: Some(".pgm"), offset: 0, hex: "5035" },
        SigDef { name: "PPM pixmap (binary)", mime: Some("image/x-portable-pixmap"), extension: Some(".ppm"), offset: 0, hex: "5036" },
        SigDef { name: "QOI image", mime: Some("image/qoi"), extension: Some(".qoi"), offset: 0, hex: "716F6966" },
        SigDef { name: "KTX2 texture", mime: Some("image/ktx2"), extension: Some(".ktx2"), offset: 0, hex: "AB4B5458203230" },
        SigDef { name: "Canon CR2 raw", mime: Some("image/x-canon-cr2"), extension: Some(".cr2"), offset: 0, hex: "49492A00100000004352" },
    ]
}

/// Entries 57 to 84 of the signatures that seed the database.
pub open spec fn seed_chunk_3() -> Seq<SigDef> {
    seq![
        SigDef { name: "Nikon NEF raw", mime: Some("image/x-nikon-nef"), extension: Some(".nef"), offset: 0, hex: "4D4D002A" },
        SigDef { name: "Olympus ORF raw", mime: Some("image/x-olympus-orf"), extension: Some(".orf"), offset: 0, hex: "4949524F" },
        SigDef { name: "Sony ARW raw", mime: Some("image/x-sony-arw"), extension: Some(".arw"), offset: 0, hex: "49492A00" },
        SigDef { name: "Fuji RAF raw", mime: Some("image/x-fuji-raf"), extension: Some(".raf"), offset: 0, hex: "4655" },
        SigDef { name: "PE executable", mime: Some("application/x-msdownload"), extension: Some(".exe"), offset: 0, hex: "4D5A" },
        SigDef { name: "NE executable (Win16)", mime: Some("application/x-msdownload"), extension: Some(".exe"), offset: 0, hex: "4E45" },
        SigDef { name: "LE executable (OS/2)", mime: Some("application/x-msdownload"), extension: Some(".exe"), offset: 0, hex: "4C45" },
        SigDef { name: "LX executable (OS/2)", mime: Some("application/x-msdownload"), extension: Some(".exe"), offset: 0, hex: "4C58" },
        SigDef { name: "ELF 32-bit LSB", mime: Some("application/x-elf"), extension: None, offset: 0, hex: "7F454C4601010100" },
        SigDef { name: "ELF 64-bit LSB", mime: Some("application/x-elf"), extension: None, offset: 0, hex: "7F454C4602010100" },
        SigDef { name: "ELF 32-bit MSB", mime: Some("application/x-elf"), extension: None, offset: 0, hex: "7F454C4601020100" },
        SigDef { name: "ELF 64-bit MSB", mime: Some("application/x-elf"), extension: None, offset: 0, hex: "7F454C4602020100" },
        SigDef { name: "Mach-O 32-bit LE", mime: Some("application/x-mach-binary"), extension: None, offset: 0, hex: "FEEDFACE" },
        SigDef { name: "Mach-O 64-bit LE", mime: Some("application/x-mach-binary"), extension: None, offset: 0, hex: "FEEDFACF" },
        SigDef { name: "Mach-O 32-bit BE", mime: Some("application/x-mach-binary"), extension: None, offset: 0, hex: "CEFAEDFE" },
        SigDef { name: "Mach-O 64-bit BE", mime: Some("application/x-mach-binary"), extension: None, offset: 0, hex: "CFFAEDFE" },
        SigDef { name: "Mach-O Universal", mime: Some("application/x-mach-binary"), extension: None, offset: 0, hex: "CAFEBABE" },
        SigDef { name: "COFF object (i386)", mime: Some("application/x-coff"), extension: Some(".o"), offset: 0, hex: "4C01" },
        SigDef { name: "COFF object (x64)", mime: Some("application/x-coff"), extension: Some(".o"), offset: 0, hex: "8664" },
        SigDef { name: "MS-DOS COM", mime: Some("application/x-msdos-program"), extension: Some(".com"), offset: 0, hex: "EB" },
        SigDef { name: "PDF document", mime: Some("application/pdf"), extension: Some(".pdf"), offset: 0, hex: "255044462D" },
        SigDef { name: "OLE2 Compound (DOC/XLS)", mime: Some("application/x-ole-storage"), extension: Some(".doc"), offset: 0, hex: "D0CF11E0A1B11AE1" },
        SigDef { name: "RTF document", mime: Some("application/rtf"), extension: Some(".rtf"), offset: 0, hex: "7B5C72746631" },
        SigDef { name: "PostScript", mime: Some("application/postscript"), extension: Some(".ps"), offset: 0, hex: "25215053" },
        SigDef { name: "DjVu document", mime: Some("image/vnd.djvu"), extension: Some(".djvu"), offset: 0, hex: "41542654464F524D" },
        SigDef { name: "CHM compiled help", mime: Some("application/x-chm"), extension: Some(".chm"), offset: 0, hex: "49545346" },
        SigDef { name: "EPUB ebook", mime: Some("application/epub+zip"), extension: Some(".epub"), offset: 0, hex: "504B0304" },
        SigDef { name: "MOBI ebook", mime: Some("application/x-mobipocket-ebook"), extension: Some(".mobi"), offset: 0, hex: "424F4F4B4D4F4249" },
    ]
}

/// Entries 85 to 112 of the signatures that seed the database.
pub open spec fn seed_chunk_4() -> Seq<SigDef> {
    seq![
        SigDef { name: "Apple Pages", mime: Some("application/x-iwork-pages"), extension: Some(".pages"), offset: 0, hex: "504B0304" },
        SigDef { name: "Apple Numbers", mime: Some("application/x-iwork-numbers"), extension: Some(".numbers"), offset: 0, hex: "504B0304" },
        SigDef { name: "Apple Keynote", mime: Some("application/x-iwork-keynote"), extension: Some(".key"), offset: 0, hex: "504B0304" },
        SigDef { name: "Microsoft OneNote", mime: Some("application/onenote"), extension: Some(".one"), offset: 0, hex: "E4525C7B8CD8" },
        SigDef { name: "HTML5 document", mime: Some("text/html"), extension: Some(".html"), offset: 0, hex: "3C21444F4354595045" },
        SigDef { name: "XML document", mime: Some("application/xml"), extension: Some(".xml"), offset: 0, hex: "3C3F786D6C20" },
        SigDef { name: "JSON data", mime: Some("application/json"), extension: Some(".json"), offset: 0, hex: "7B" },
        SigDef { name: "TeX DVI", mime: Some("application/x-dvi"), extension: Some(".dvi"), offset: 0, hex: "F702" },
        SigDef { name: "WinHelp (HLP)", mime: Some("application/winhlp"), extension: Some(".hlp"), offset: 0, hex: "3F5F03" },
        SigDef { name: "WAV audio", mime: Some("audio/wav"), extension: Some(".wav"), offset: 0, hex: "52494646" },
        SigDef { name: "MP3 ID3v2", mime: Some("audio/mpeg"), extension: Some(".mp3"), offset: 0, hex: "494433" },
        SigDef { name: "MP3 MPEG v1", mime: Some("audio/mpeg"), extension: Some(".mp3"), offset: 0, hex: "FFFB" },
        SigDef { name: "MP3 MPEG v1 no CRC", mime: Some("audio/mpeg"), extension: Some(".mp3"), offset: 0, hex: "FFF3" },
        SigDef { name: "FLAC audio", mime: Some("audio/flac"), extension: Some(".flac"), offset: 0, hex: "664C6143" },
        SigDef { name: "OGG audio", mime: Some("audio/ogg"), extension: Some(".ogg"), offset: 0, hex: "4F676753" },
        SigDef { name: "Opus audio", mime: Some("audio/opus"), extension: Some(".opus"), offset: 0, hex: "4F676753" },
        SigDef { name: "Speex audio", mime: Some("audio/speex"), extension: Some(".spx"), offset: 0, hex: "4F676753" },
        SigDef { name: "MIDI audio", mime: Some("audio/midi"), extension: Some(".mid"), offset: 0, hex: "4D546864" },
        SigDef { name: "AIFF audio", mime: Some("audio/aiff"), extension: Some(".aiff"), offset: 0, hex: "464F524D" },
        SigDef { name: "AAC ADTS", mime: Some("audio/aac"), extension: Some(".aac"), offset: 0, hex: "FFF1" },
        SigDef { name: "AAC ADIF", mime: Some("audio/aac"), extension: Some(".aac"), offset: 0, hex: "FFF9" },
        SigDef { name: "AC-3 Dolby Digital", mime: Some("audio/ac3"), extension: Some(".ac3"), offset: 0, hex: "0B77" },
        SigDef { name: "E-AC-3 Dolby+", mime: Some("audio/eac3"), extension: Some(".eac3"), offset: 0, hex: "0B78" },
        SigDef { name: "WMA audio (ASF)", mime: Some("audio/x-ms-wma"), extension: Some(".wma"), offset: 0, hex: "3026B2758E66CF11" },
        SigDef { name: "APE Monkey's Audio", mime: Some("audio/x-ape"), extension: Some(".ape"), offset: 0, hex: "4D414320" },
        SigDef { name: "WavPack audio", mime: Some("audio/x-wavpack"), extension: Some(".wv"), offset: 0, hex: "7776706B" },
        SigDef { name: "TrueAudio TTA", mime: Some("audio/x-tta"), extension: Some(".tta"), offset: 0, hex: "54544131" },
        SigDef { name: "AMR audio", mime: Some("audio/amr"), extension: Some(".amr"), offset: 0, hex: "2321414D52" },
    ]
}

/// Entries 113 to 140 of the signatures that seed the database.
pub open spec fn seed_chunk_5() -> Seq<SigDef> {
    seq![
        SigDef { name: "RealAudio", mime: Some("audio/vnd.rn-realaudio"), extension: Some(".ra"), offset: 0, hex: "2E7261FD" },
        SigDef { name: "CAF (Apple)", mime: Some("audio/x-caf"), extension: Some(".caf"), offset: 0, hex: "63616666" },
        SigDef { name: "AU/SND audio", mime: Some("audio/basic"), extension: Some(".au"), offset: 0, hex: "2E736E64" },
        SigDef { name: "M4A audio (MP4)", mime: Some("audio/mp4"), extension: Some(".m4a"), offset: 4, hex: "66747970" },
        SigDef { name: "MP4 base media", mime: Some("video/mp4"), extension: Some(".mp4"), offset: 4, hex: "66747970" },
        SigDef { name: "QuickTime MOV", mime: Some("video/quicktime"), extension: Some(".mov"), offset: 4, hex: "667479706D6F6F76" },
        SigDef { name: "AVI video", mime: Some("video/x-msvideo"), extension: Some(".avi"), offset: 0, hex: "52494646" },
        SigDef { name: "Matroska MKV", mime: Some("video/x-matroska"), extension: Some(".mkv"), offset: 0, hex: "1A45DFA3" },
        SigDef { name: "WebM video", mime: Some("video/webm"), extension: Some(".webm"), offset: 0, hex: "1A45DFA3" },
        SigDef { name: "WMV video (ASF)", mime: Some("video/x-ms-wmv"), extension: Some(".wmv"), offset: 0, hex: "3026B2758E66CF11" },
        SigDef { name: "FLV video", mime: Some("video/x-flv"), extension: Some(".flv"), offset: 0, hex: "464C5601" },
        SigDef { name: "Flash SWF", mime: Some("application/x-shockwave-flash"), extension: Some(".swf"), offset: 0, hex: "465753" },
        SigDef { name: "Flash SWF compressed", mime: Some("application/x-shockwave-flash"), extension: Some(".swf"), offset: 0, hex: "435753" },
        SigDef { name: "MPEG-1 PS", mime: Some("video/mpeg"), extension: Some(".mpg"), offset: 0, hex: "000001BA" },
        SigDef { name: "MPEG-2 TS", mime: Some("video/mp2t"), extension: Some(".ts"), offset: 0, hex: "47" },
        SigDef { name: "3GPP video", mime: Some("video/3gpp"), extension: Some(".3gp"), offset: 4, hex: "66747970336770" },
        SigDef { name: "Bink video", mime: Some("video/x-bink"), extension: Some(".bik"), offset: 0, hex: "42494B" },
        SigDef { name: "RealMedia", mime: Some("video/vnd.rn-realvideo"), extension: Some(".rm"), offset: 0, hex: "2E524D46" },
        SigDef { name: "VP8 (IVF)", mime: Some("video/x-ivf"), extension: Some(".ivf"), offset: 0, hex: "444B4946" },
        SigDef { name: "DV video", mime: Some("video/x-dv"), extension: Some(".dv"), offset: 0, hex: "1F0700" },
        SigDef { name: "MXF broadcast", mime: Some("application/mxf"), extension: Some(".mxf"), offset: 0, hex: "060E2B3402040100" },
        SigDef { name: "H.264 NAL unit", mime: Some("video/h264"), extension: Some(".h264"), offset: 0, hex: "00000001" },
        SigDef { name: "HEVC/H.265 NAL", mime: Some("video/hevc"), extension: Some(".h265"), offset: 0, hex: "00000001" },
        SigDef { name: "AV1 (IVF)", mime: Some("video/av1"), extension: Some(".ivf"), offset: 0, hex: "444B4946" },
        SigDef { name: "TrueType font", mime: Some("font/ttf"), extension: Some(".ttf"), offset: 0, hex: "0001000000" },
        SigDef { name: "OpenType font", mime: Some("font/otf"), extension: Some(".otf"), offset: 0, hex: "4F54544F" },
        SigDef { name: "WOFF font", mime: Some("font/woff"), extension: Some(".woff"), offset: 0, hex: "774F4646" },
        SigDef { name: "WOFF2 font", mime: Some("font/woff2"), extension: Some(".woff2"), offset: 0, hex: "774F4632" },
    ]
}

/// Entries 141 to 168 of the signatures that seed the database.
pub open spec fn seed_chunk_6() -> Seq<SigDef> {
    seq![
        SigDef { name: "PCF bitmap font", mime: Some("application/x-font-pcf"), extension: Some(".pcf"), offset: 0, hex: "01666370" },
        SigDef { name: "BDF bitmap font", mime: Some("application/x-font-bdf"), extension: Some(".bdf"), offset: 0, hex: "5354415254464F4E54" },
        SigDef { name: "Type1 PFB font", mime: Some("application/x-font-type1"), extension: Some(".pfb"), offset: 0, hex: "8001" },
        SigDef { name: "ISO 9660 CD image", mime: Some("application/x-iso9660-image"), extension: Some(".iso"), offset: 32769, hex: "4344303031" },
        SigDef { name: "UDF filesystem", mime: Some("application/x-udf"), extension: Some(".iso"), offset: 32768, hex: "4E535230" },
        SigDef { name: "NTFS filesystem", mime: Some("application/x-ntfs"), extension: None, offset: 3, hex: "4E54465320202020" },
        SigDef { name: "ext2/ext3/ext4 fs", mime: Some("application/x-ext4"), extension: None, offset: 1080, hex: "53EF" },
        SigDef { name: "XFS filesystem", mime: Some("application/x-xfs"), extension: None, offset: 0, hex: "58465342" },
        SigDef { name: "Btrfs filesystem", mime: Some("application/x-btrfs"), extension: None, offset: 65536, hex: "5F42485246534D5F" },
        SigDef { name: "VHD disk image", mime: Some("application/x-vhd"), extension: Some(".vhd"), offset: 0, hex: "636F6E6563746978" },
        SigDef { name: "VHDX disk image", mime: Some("application/x-vhdx"), extension: Some(".vhdx"), offset: 0, hex: "7668647866696C65" },
        SigDef { name: "VMDK disk", mime: Some("application/x-vmdk"), extension: Some(".vmdk"), offset: 0, hex: "4B444D" },
        SigDef { name: "Apple DMG", mime: Some("application/x-apple-diskimage"), extension: Some(".dmg"), offset: 0, hex: "7801730D626260" },
        SigDef { name: "QEMU QCOW2", mime: Some("application/x-qcow2"), extension: Some(".qcow2"), offset: 0, hex: "514649FB" },
        SigDef { name: "VirtualBox VDI", mime: Some("application/x-vdi"), extension: Some(".vdi"), offset: 0, hex: "3C3C3C20" },
        SigDef { name: "FAT filesystem", mime: Some("application/x-fat"), extension: None, offset: 0, hex: "EB" },
        SigDef { name: "SQLite3 database", mime: Some("application/x-sqlite3"), extension: Some(".sqlite"), offset: 0, hex: "53514C69746520666F726D6174203300" },
        SigDef { name: "SQLite3 WAL", mime: Some("application/x-sqlite3"), extension: Some(".sqlite-wal"), offset: 0, hex: "377F0682" },
        SigDef { name: "Berkeley DB (btree)", mime: Some("application/x-bdb"), extension: Some(".db"), offset: 0, hex: "00053162" },
        SigDef { name: "Berkeley DB (hash)", mime: Some("application/x-bdb"), extension: Some(".db"), offset: 0, hex: "00053161" },
        SigDef { name: "LMDB database", mime: Some("application/x-lmdb"), extension: Some(".mdb"), offset: 0, hex: "01000000" },
        SigDef { name: "MS Access MDB", mime: Some("application/x-msaccess"), extension: Some(".mdb"), offset: 0, hex: "000100005374616E" },
        SigDef { name: "MS Access ACCDB", mime: Some("application/x-msaccess"), extension: Some(".accdb"), offset: 0, hex: "00010000416363" },
        SigDef { name: "Parquet file", mime: Some("application/x-parquet"), extension: Some(".parquet"), offset: 0, hex: "50415231" },
        SigDef { name: "HDF5 data", mime: Some("application/x-hdf5"), extension: Some(".h5"), offset: 0, hex: "89484446" },
        SigDef { name: "Redis RDB dump", mime: Some("application/x-redis-dump"), extension: Some(".rdb"), offset: 0, hex: "5245444953" },
        SigDef { name: "Java class file", mime: Some("application/java-vm"), extension: Some(".class"), offset: 0, hex: "CAFEBABE" },
        SigDef { name: "Dalvik DEX", mime: Some("application/x-dex"), extension: Some(".dex"), offset: 0, hex: "6465780A" },
    ]
}

/// Entries 169 to 196 of the signatures that seed the database.
pub open spec fn seed_chunk_7() -> Seq<SigDef> {
    seq![
        SigDef { name: "WebAssembly WASM", mime: Some("application/wasm"), extension: Some(".wasm"), offset: 0, hex: "0061736D" },
        SigDef { name: "Lua bytecode 5.1", mime: Some("application/x-lua-bytecode"), extension: Some(".luac"), offset: 0, hex: "1B4C7561" },
        SigDef { name: "Python bytecode 3.3+", mime: Some("application/x-python-bytecode"), extension: Some(".pyc"), offset: 0, hex: "42" },
        SigDef { name: "LLVM bitcode", mime: Some("application/x-llvm-bitcode"), extension: Some(".bc"), offset: 0, hex: "4243" },
        SigDef { name: "X.509 DER cert", mime: Some("application/pkix-cert"), extension: Some(".cer"), offset: 0, hex: "3082" },
        SigDef { name: "PKCS#12 PFX", mime: Some("application/x-pkcs12"), extension: Some(".pfx"), offset: 0, hex: "3084" },
        SigDef { name: "OpenPGP public key", mime: Some("application/pgp-keys"), extension: Some(".asc"), offset: 0, hex: "2D2D2D2D2D424547494E2050" },
        SigDef { name: "OpenPGP message", mime: Some("application/pgp-message"), extension: Some(".pgp"), offset: 0, hex: "2D2D2D2D2D424547494E2050" },
        SigDef { name: "SSH private key", mime: Some("text/plain"), extension: None, offset: 0, hex: "2D2D2D2D2D424547494E204F5045" },
        SigDef { name: "SSH RSA public key", mime: Some("text/plain"), extension: Some(".pub"), offset: 0, hex: "7373682D72736100" },
        SigDef { name: "PEM certificate", mime: Some("application/x-pem-file"), extension: Some(".pem"), offset: 0, hex: "2D2D2D2D2D424547494E204345" },
        SigDef { name: "Java KeyStore JKS", mime: Some("application/x-java-keystore"), extension: Some(".jks"), offset: 0, hex: "FECAFE" },
        SigDef { name: "Bitcoin wallet", mime: Some("application/x-bitcoin-wallet"), extension: Some(".dat"), offset: 0, hex: "F9BEB4D9" },
        SigDef { name: "PCAP (LE)", mime: Some("application/vnd.tcpdump.pcap"), extension: Some(".pcap"), offset: 0, hex: "D4C3B2A1" },
        SigDef { name: "PCAP (BE)", mime: Some("application/vnd.tcpdump.pcap"), extension: Some(".pcap"), offset: 0, hex: "A1B2C3D4" },
        SigDef { name: "PCAPNG capture", mime: Some("application/vnd.tcpdump.pcap"), extension: Some(".pcapng"), offset: 0, hex: "0A0D0D0A" },
        SigDef { name: "Android APK", mime: Some("application/vnd.android.package-archive"), extension: Some(".apk"), offset: 0, hex: "504B0304" },
        SigDef { name: "Android boot img", mime: Some("application/x-android-boot"), extension: Some(".img"), offset: 0, hex: "414E44524F494421" },
        SigDef { name: "STL binary 3D", mime: Some("application/sla"), extension: Some(".stl"), offset: 0, hex: "434453" },
        SigDef { name: "OBJ 3D model", mime: Some("model/obj"), extension: Some(".obj"), offset: 0, hex: "23" },
        SigDef { name: "3DS Max model", mime: Some("application/x-3ds"), extension: Some(".3ds"), offset: 0, hex: "4D4D" },
        SigDef { name: "Collada DAE", mime: Some("model/vnd.collada+xml"), extension: Some(".dae"), offset: 0, hex: "3C3F786D6C" },
        SigDef { name: "FBX binary", mime: Some("application/x-fbx"), extension: Some(".fbx"), offset: 0, hex: "4B61794461726120" },
        SigDef { name: "GLB 3D model", mime: Some("model/gltf-binary"), extension: Some(".glb"), offset: 0, hex: "676C5446" },
        SigDef { name: "AutoCAD DWG", mime: Some("image/vnd.dwg"), extension: Some(".dwg"), offset: 0, hex: "41433130" },
        SigDef { name: "PLY point cloud", mime: Some("application/x-ply"), extension: Some(".ply"), offset: 0, hex: "706C7920" },
        SigDef { name: "Nintendo NES ROM", mime: Some("application/x-nintendo-nes-rom"), extension: Some(".nes"), offset: 0, hex: "4E45531A" },
        SigDef { name: "Nintendo 64 ROM", mime: Some("application/x-nintendo-64-rom"), extension: Some(".z64"), offset: 0, hex: "80371240" },
    ]
}

/// Entries 197 to 221 of the signatures that seed the database.
pub open spec fn seed_chunk_8() -> Seq<SigDef> {
    seq![
        SigDef { name: "Nintendo DS ROM", mime: Some("application/x-nintendo-ds-rom"), extension: Some(".nds"), offset: 0, hex: "00010000" },
        SigDef { name: "Nintendo GBA ROM", mime: Some("application/x-nintendo-gba-rom"), extension: Some(".gba"), offset: 0, hex: "00008000" },
        SigDef { name: "Sega Genesis ROM", mime: Some("application/x-sega-genesis-rom"), extension: Some(".md"), offset: 0, hex: "00000800" },
        SigDef { name: "PSX EXE", mime: Some("application/x-playstation-exe"), extension: Some(".exe"), offset: 0, hex: "00000100" },
        SigDef { name: "Windows LNK shortcut", mime: Some("application/x-ms-shortcut"), extension: Some(".lnk"), offset: 0, hex: "4C00000001140200" },
        SigDef { name: "Windows registry hive", mime: Some("application/x-ms-registry"), extension: None, offset: 0, hex: "72656766" },
        SigDef { name: "Windows EVTX log", mime: Some("application/x-ms-evtx"), extension: Some(".evtx"), offset: 0, hex: "456C6646696C65" },
        SigDef { name: "Windows Minidump", mime: Some("application/x-ms-minidump"), extension: Some(".dmp"), offset: 0, hex: "4D444D5093A7" },
        SigDef { name: "RPM package", mime: Some("application/x-rpm"), extension: Some(".rpm"), offset: 0, hex: "EDABEEDB" },
        SigDef { name: "DEB package", mime: Some("application/vnd.debian.binary-package"), extension: Some(".deb"), offset: 0, hex: "213C617263683E" },
        SigDef { name: "MSI installer", mime: Some("application/x-msi"), extension: Some(".msi"), offset: 0, hex: "D0CF11E0A1B11AE1" },
        SigDef { name: "Shapefile SHP", mime: Some("application/x-esri-shape"), extension: Some(".shp"), offset: 0, hex: "0000270A00000000" },
        SigDef { name: "GeoPackage", mime: Some("application/geopackage+sqlite3"), extension: Some(".gpkg"), offset: 0, hex: "53514C697465" },
        SigDef { name: "U-Boot FIT image", mime: Some("application/x-fit-image"), extension: Some(".itb"), offset: 0, hex: "D00DFEED" },
        SigDef { name: "U-Boot uImage", mime: Some("application/x-u-boot"), extension: Some(".img"), offset: 0, hex: "27051956" },
        SigDef { name: "FITS astronomy", mime: Some("application/fits"), extension: Some(".fits"), offset: 0, hex: "53494D50" },
        SigDef { name: "DICOM medical", mime: Some("application/dicom"), extension: Some(".dcm"), offset: 0, hex: "44434D" },
        SigDef { name: "VTK visualization", mime: Some("application/x-vtk"), extension: Some(".vtk"), offset: 0, hex: "2376746B" },
        SigDef { name: "Bash shell script", mime: Some("text/x-shellscript"), extension: Some(".sh"), offset: 0, hex: "23212F62696E2F" },
        SigDef { name: "Python script", mime: Some("text/x-python"), extension: Some(".py"), offset: 0, hex: "23212F7573722F62696E2F" },
        SigDef { name: "PHP script", mime: Some("text/x-php"), extension: Some(".php"), offset: 0, hex: "3C3F706870" },
        SigDef { name: "Perl script", mime: Some("text/x-perl"), extension: Some(".pl"), offset: 0, hex: "23212F7573722F62696E" },
        SigDef { name: "Ruby script", mime: Some("text/x-ruby"), extension: Some(".rb"), offset: 0, hex: "23212F7573722F62696E2F" },
        SigDef { name: "PostScript EPS", mime: Some("application/postscript"), extension: Some(".eps"), offset: 0, hex: "252150532D4164" },
        SigDef { name: "FictionBook FB2", mime: Some("application/x-fictionbook+xml"), extension: Some(".fb2"), offset: 0, hex: "3C3F786D6C" },
    ]
}

/// The signatures that seed the database.
pub open spec fn seed_list() -> Seq<SigDef> {
    seed_chunk_1()
        + seed_chunk_2()
        + seed_chunk_3()
        + seed_chunk_4()
        + seed_chunk_5()
        + seed_chunk_6()
        + seed_chunk_7()
        + seed_chunk_8()
}

fn seed_part_1(v: &mut Vec<SigDef>)
    requires
        all_ok(old(v)@),
    ensures
        final(v)@ == old(v)@ + seed_chunk_1(),
        all_ok(final(v)@),
{
    proof {
        reveal_strlit("ZIP archive");
        reveal_strlit("504B0304");
        reveal_strlit(".zip");
    }
    def(v, "ZIP archive", Some("application/zip"), Some(".zip"), 0, "504B0304");
    proof {
        reveal_strlit("ZIP empty archive");
        reveal_strlit("504B0506");
        reveal_strlit(".zip");
    }
    def(v, "ZIP empty archive", Some("application/zip"), Some(".zip"), 0, "504B0506");
    proof {
        reveal_strlit("ZIP spanned archive");
        reveal_strlit("504B0708");
        reveal_strlit(".zip");
    }
    def(v, "ZIP spanned archive", Some("application/zip"), Some(".zip"), 0, "504B0708");
    proof {
        reveal_strlit("RAR archive v1.5");
        reveal_strlit("526172211A0700");
        reveal_strlit(".rar");
    }
    def(v, "RAR archive v1.5", Some("application/vnd.rar"), Some(".rar"), 0, "526172211A0700");
    proof {
        reveal_strlit("RAR archive v5");
        reveal_strlit("526172211A070100");
        reveal_strlit(".rar");
    }
    def(v, "RAR archive v5", Some("application/vnd.rar"), Some(".rar"), 0, "526172211A070100");
    proof {
        reveal_strlit("7-Zip archive");
        reveal_strlit("377ABCAF271C");
        reveal_strlit(".7z");
    }
    def(v, "7-Zip archive", Some("application/x-7z-compressed"), Some(".7z"), 0, "377ABCAF271C");
    proof {
        reveal_strlit("GZIP compressed");
        reveal_strlit("1F8B08");
        reveal_strlit(".gz");
    }
    def(v, "GZIP compressed", Some("application/gzip"), Some(".gz"), 0, "1F8B08");
    proof {
        reveal_strlit("BZIP2 compressed");
        reveal_strlit("425A68");
        reveal_strlit(".bz2");
    }
    def(v, "BZIP2 compressed", Some("application/x-bzip2"), Some(".bz2"), 0, "425A68");
    proof {
        reveal_strlit("XZ compressed");
        reveal_strlit("FD377A585A00");
        reveal_strlit(".xz");
    }
    def(v, "XZ compressed", Some("application/x-xz"), Some(".xz"), 0, "FD377A585A00");
    proof {
        reveal_strlit("TAR POSIX archive");
        reveal_strlit("757374617200");
        reveal_strlit(".tar");
    }
    def(v, "TAR POSIX archive", Some("application/x-tar"), Some(".tar"), 257, "757374617200");
    proof {
        reveal_strlit("TAR GNU archive");
        reveal_strlit("757374617220");
        reveal_strlit(".tar");
    }
    def(v, "TAR GNU archive", Some("application/x-tar"), Some(".tar"), 257, "757374617220");
    proof {
        reveal_strlit("Zstandard compressed");
        reveal_strlit("28B52FFD");
        reveal_strlit(".zst");
    }
    def(v, "Zstandard compressed", Some("application/zstd"), Some(".zst"), 0, "28B52FFD");
    proof {
        reveal_strlit("LZ4 compressed");
        reveal_strlit("04224D18");
        reveal_strlit(".lz4");
    }
    def(v, "LZ4 compressed", Some("application/x-lz4"), Some(".lz4"), 0, "04224D18");
    proof {
        reveal_strlit("CAB archive");
        reveal_strlit("4D534346");
        reveal_strlit(".cab");
    }
    def(v, "CAB archive", Some("application/vnd.ms-cab-compressed"), Some(".cab"), 0, "4D534346");
    proof {
        reveal_strlit("Unix AR archive");
        reveal_strlit("213C617263683E0A");
        reveal_strlit(".a");
    }
    def(v, "Unix AR archive", Some("application/x-archive"), Some(".a"), 0, "213C617263683E0A");
    proof {
        reveal_strlit("ARJ archive");
        reveal_strlit("60EA");
        reveal_strlit(".arj");
    }
    def(v, "ARJ archive", Some("application/x-arj"), Some(".arj"), 0, "60EA");
    proof {
        reveal_strlit("LHA/LZH archive");
        reveal_strlit("2D6C68");
        reveal_strlit(".lzh");
    }
    def(v, "LHA/LZH archive", Some("application/x-lzh"), Some(".lzh"), 0, "2D6C68");
    proof {
        reveal_strlit("StuffIt SIT archive");
        reveal_strlit("5374756666497421");
        reveal_strlit(".sit");
    }
    def(v, "StuffIt SIT archive", Some("application/x-stuffit"), Some(".sit"), 0, "5374756666497421");
    proof {
        reveal_strlit("InstallShield CAB");
        reveal_strlit("49534328");
        reveal_strlit(".cab");
    }
    def(v, "InstallShield CAB", Some("application/vnd.ms-cab-compressed"), Some(".cab"), 0, "49534328");
    proof {
        reveal_strlit("Brotli compressed");
        reveal_strlit("CEB2CF81");
        reveal_strlit(".br");
    }
    def(v, "Brotli compressed", Some("application/brotli"), Some(".br"), 0, "CEB2CF81");
    proof {
        reveal_strlit("WIM archive");
        reveal_strlit("4D534F52");
        reveal_strlit(".wim");
    }
    def(v, "WIM archive", Some("application/x-ms-wim"), Some(".wim"), 0, "4D534F52");
    proof {
        reveal_strlit("Snappy framed");
        reveal_strlit("FF0600736E617037");
    }
    def(v, "Snappy framed", Some("application/x-snappy"), None, 0, "FF0600736E617037");
    proof {
        reveal_strlit("LZ4 legacy");
        reveal_strlit("02214C18");
        reveal_strlit(".lz4");
    }
    def(v, "LZ4 legacy", Some("application/x-lz4"), Some(".lz4"), 0, "02214C18");
    proof {
        reveal_strlit("Zstd skippable frame");
        reveal_strlit("18422A18");
        reveal_strlit(".zst");
    }
    def(v, "Zstd skippable frame", Some("application/zstd"), Some(".zst"), 0, "18422A18");
    proof {
        reveal_strlit("SquashFS (LE)");
        reveal_strlit("68737173");
        reveal_strlit(".squashfs");
    }
    def(v, "SquashFS (LE)", Some("application/x-squashfs"), Some(".squashfs"), 0, "68737173");
    proof {
        reveal_strlit("SquashFS (BE)");
        reveal_strlit("73717368");
        reveal_strlit(".squashfs");
    }
    def(v, "SquashFS (BE)", Some("application/x-squashfs"), Some(".squashfs"), 0, "73717368");
    proof {
        reveal_strlit("ROMFS filesystem");
        reveal_strlit("2D726F6D31");
        reveal_strlit(".romfs");
    }
    def(v, "ROMFS filesystem", Some("application/x-romfs"), Some(".romfs"), 0, "2D726F6D31");
    proof {
        reveal_strlit("CPIO archive");
        reveal_strlit("3037303730");
        reveal_strlit(".cpio");
    }
    def(v, "CPIO archive", Some("application/x-cpio"), Some(".cpio"), 0, "3037303730");
    assert(v@ =~= old(v)@ + seed_chunk_1());
}

fn seed_part_2(v: &mut Vec<SigDef>)
    requires
        all_ok(old(v)@),
    ensures
        final(v)@ == old(v)@ + seed_chunk_2(),
        all_ok(final(v)@),
{
    proof {
        reveal_strlit("PNG image");
        reveal_strlit("89504E470D0A1A0A");
        reveal_strlit(".png");
    }
    def(v, "PNG image", Some("image/png"), Some(".png"), 0, "89504E470D0A1A0A");
    proof {
        reveal_strlit("JPEG image");
        reveal_strlit("FFD8FF");
        reveal_strlit(".jpg");
    }
    def(v, "JPEG image", Some("image/jpeg"), Some(".jpg"), 0, "FFD8FF");
    proof {
        reveal_strlit("JPEG Exif");
        reveal_strlit("FFD8FFE1");
        reveal_strlit(".jpg");
    }
    def(v, "JPEG Exif", Some("image/jpeg"), Some(".jpg"), 0, "FFD8FFE1");
    proof {
        reveal_strlit("JPEG JFIF");
        reveal_strlit("FFD8FFE0");
        reveal_strlit(".jpg");
    }
    def(v, "JPEG JFIF", Some("image/jpeg"), Some(".jpg"), 0, "FFD8FFE0");
    proof {
        reveal_strlit("GIF87a");
        reveal_strlit("474946383761");
        reveal_strlit(".gif");
    }
    def(v, "GIF87a", Some("image/gif"), Some(".gif"), 0, "474946383761");
    proof {
        reveal_strlit("GIF89a");
        reveal_strlit("474946383961");
        reveal_strlit(".gif");
    }
    def(v, "GIF89a", Some("image/gif"), Some(".gif"), 0, "474946383961");
    proof {
        reveal_strlit("BMP image");
        reveal_strlit("424D");
        reveal_strlit(".bmp");
    }
    def(v, "BMP image", Some("image/bmp"), Some(".bmp"), 0, "424D");
    proof {
        reveal_strlit("WebP image (RIFF)");
        reveal_strlit("52494646");
        reveal_strlit(".webp");
    }
    def(v, "WebP image (RIFF)", Some("image/webp"), Some(".webp"), 0, "52494646");
    proof {
        reveal_strlit("TIFF little-endian");
        reveal_strlit("49492A00");
        reveal_strlit(".tiff");
    }
    def(v, "TIFF little-endian", Some("image/tiff"), Some(".tiff"), 0, "49492A00");
    proof {
        reveal_strlit("TIFF big-endian");
        reveal_strlit("4D4D002A");
        reveal_strlit(".tiff");
    }
    def(v, "TIFF big-endian", Some("image/tiff"), Some(".tiff"), 0, "4D4D002A");
    proof {
        reveal_strlit("ICO icon");
        reveal_strlit("00000100");
        reveal_strlit(".ico");
    }
    def(v, "ICO icon", Some("image/vnd.microsoft.icon"), Some(".ico"), 0, "00000100");
    proof {
        reveal_strlit("CUR cursor");
        reveal_strlit("00000200");
        reveal_strlit(".cur");
    }
    def(v, "CUR cursor", Some("image/x-win-bitmap"), Some(".cur"), 0, "00000200");
    proof {
        reveal_strlit("Photoshop PSD");
        reveal_strlit("38425053");
        reveal_strlit(".psd");
    }
    def(v, "Photoshop PSD", Some("image/vnd.adobe.photoshop"), Some(".psd"), 0, "38425053");
    proof {
        reveal_strlit("GIMP XCF");
        reveal_strlit("67696D702078636620");
        reveal_strlit(".xcf");
    }
    def(v, "GIMP XCF", Some("image/x-xcf"), Some(".xcf"), 0, "67696D702078636620");
    proof {
        reveal_strlit("HEIC image (heix)");
        reveal_strlit("6674797068656978");
        reveal_strlit(".heic");
    }
    def(v, "HEIC image (heix)", Some("image/heif"), Some(".heic"), 4, "6674797068656978");
    proof {
        reveal_strlit("AVIF image (avif)");
        reveal_strlit("6674797061766966");
        reveal_strlit(".avif");
    }
    def(v, "AVIF image (avif)", Some("image/avif"), Some(".avif"), 4, "6674797061766966");
    proof {
        reveal_strlit("DDS texture");
        reveal_strlit("44445320");
        reveal_strlit(".dds");
    }
    def(v, "DDS texture", Some("image/vnd.ms-dds"), Some(".dds"), 0, "44445320");
    proof {
        reveal_strlit("JPEG 2000 JP2");
        reveal_strlit("0000000C6A502020");
        reveal_strlit(".jp2");
    }
    def(v, "JPEG 2000 JP2", Some("image/jp2"), Some(".jp2"), 0, "0000000C6A502020");
    proof {
        reveal_strlit("JPEG 2000 J2K");
        reveal_strlit("FF4FFF51");
        reveal_strlit(".j2k");
    }
    def(v, "JPEG 2000 J2K", Some("image/jp2"), Some(".j2k"), 0, "FF4FFF51");
    proof {
        reveal_strlit("OpenEXR");
        reveal_strlit("762F3101");
        reveal_strlit(".exr");
    }
    def(v, "OpenEXR", Some("image/x-exr"), Some(".exr"), 0, "762F3101");
    proof {
        reveal_strlit("TGA image");
        reveal_strlit("000002");
        reveal_strlit(".tga");
    }
    def(v, "TGA image", Some("image/x-tga"), Some(".tga"), 0, "000002");
    proof {
        reveal_strlit("PCX image");
        reveal_strlit("0A");
        reveal_strlit(".pcx");
    }
    def(v, "PCX image", Some("image/x-pcx"), Some(".pcx"), 0, "0A");
    proof {
        reveal_strlit("PBM bitmap (binary)");
        reveal_strlit("5034");
        reveal_strlit(".pbm");
    }
    def(v, "PBM bitmap (binary)", Some("image/x-portable-bitmap"), Some(".pbm"), 0, "5034");
    proof {
        reveal_strlit("PGM graymap (binary)");
        reveal_strlit("5035");
        reveal_strlit(".pgm");
    }
    def(v, "PGM graymap (binary)", Some("image/x-portable-graymap"), Some(".pgm"), 0, "5035");
    proof {
        reveal_strlit("PPM pixmap (binary)");
        reveal_strlit("5036");
        reveal_strlit(".ppm");
    }
    def(v, "PPM pixmap (binary)", Some("image/x-portable-pixmap"), Some(".ppm"), 0, "5036");
    proof {
        reveal_strlit("QOI image");
        reveal_strlit("716F6966");
        reveal_strlit(".qoi");
    }
    def(v, "QOI image", Some("image/qoi"), Some(".qoi"), 0, "716F6966");
    proof {
        reveal_strlit("KTX2 texture");
        reveal_strlit("AB4B5458203230");
        reveal_strlit(".ktx2");
    }
    def(v, "KTX2 texture", Some("image/ktx2"), Some(".ktx2"), 0, "AB4B5458203230");
    proof {
        reveal_strlit("Canon CR2 raw");
        reveal_strlit("49492A00100000004352");
        reveal_strlit(".cr2");
    }
    def(v, "Canon CR2 raw", Some("image/x-canon-cr2"), Some(".cr2"), 0, "49492A00100000004352");
    assert(v@ =~= old(v)@ + seed_chunk_2());
}

fn seed_part_3(v: &mut Vec<SigDef>)
    requires
        all_ok(old(v)@),
    ensures
        final(v)@ == old(v)@ + seed_chunk_3(),
        all_ok(final(v)@),
{
    proof {
        reveal_strlit("Nikon NEF raw");
        reveal_strlit("4D4D002A");
        reveal_strlit(".nef");
    }
    def(v, "Nikon NEF raw", Some("image/x-nikon-nef"), Some(".nef"), 0, "4D4D002A");
    proof {
        reveal_strlit("Olympus ORF raw");
        reveal_strlit("4949524F");
        reveal_strlit(".orf");
    }
    def(v, "Olympus ORF raw", Some("image/x-olympus-orf"), Some(".orf"), 0, "4949524F");
    proof {
        reveal_strlit("Sony ARW raw");
        reveal_strlit("49492A00");
        reveal_strlit(".arw");
    }
    def(v, "Sony ARW raw", Some("image/x-sony-arw"), Some(".arw"), 0, "49492A00");
    proof {
        reveal_strlit("Fuji RAF raw");
        reveal_strlit("4655");
        reveal_strlit(".raf");
    }
    def(v, "Fuji RAF raw", Some("image/x-fuji-raf"), Some(".raf"), 0, "4655");
    proof {
        reveal_strlit("PE executable");
        reveal_strlit("4D5A");
        reveal_strlit(".exe");
    }
    def(v, "PE executable", Some("application/x-msdownload"), Some(".exe"), 0, "4D5A");
    proof {
        reveal_strlit("NE executable (Win16)");
        reveal_strlit("4E45");
        reveal_strlit(".exe");
    }
    def(v, "NE executable (Win16)", Some("application/x-msdownload"), Some(".exe"), 0, "4E45");
    proof {
        reveal_strlit("LE executable (OS/2)");
        reveal_strlit("4C45");
        reveal_strlit(".exe");
    }
    def(v, "LE executable (OS/2)", Some("application/x-msdownload"), Some(".exe"), 0, "4C45");
    proof {
        reveal_strlit("LX executable (OS/2)");
        reveal_strlit("4C58");
        reveal_strlit(".exe");
    }
    def(v, "LX executable (OS/2)", Some("application/x-msdownload"), Some(".exe"), 0, "4C58");
    proof {
        reveal_strlit("ELF 32-bit LSB");
        reveal_strlit("7F454C4601010100");
    }
    def(v, "ELF 32-bit LSB", Some("application/x-elf"), None, 0, "7F454C4601010100");
    proof {
        reveal_strlit("ELF 64-bit LSB");
        reveal_strlit("7F454C4602010100");
    }
    def(v, "ELF 64-bit LSB", Some("application/x-elf"), None, 0, "7F454C4602010100");
    proof {
        reveal_strlit("ELF 32-bit MSB");
        reveal_strlit("7F454C4601020100");
    }
    def(v, "ELF 32-bit MSB", Some("application/x-elf"), None, 0, "7F454C4601020100");
    proof {
        reveal_strlit("ELF 64-bit MSB");
        reveal_strlit("7F454C4602020100");
    }
    def(v, "ELF 64-bit MSB", Some("application/x-elf"), None, 0, "7F454C4602020100");
    proof {
        reveal_strlit("Mach-O 32-bit LE");
        reveal_strlit("FEEDFACE");
    }
    def(v, "Mach-O 32-bit LE", Some("application/x-mach-binary"), None, 0, "FEEDFACE");
    proof {
        reveal_strlit("Mach-O 64-bit LE");
        reveal_strlit("FEEDFACF");
    }
    def(v, "Mach-O 64-bit LE", Some("application/x-mach-binary"), None, 0, "FEEDFACF");
    proof {
        reveal_strlit("Mach-O 32-bit BE");
        reveal_strlit("CEFAEDFE");
    }
    def(v, "Mach-O 32-bit BE", Some("application/x-mach-binary"), None, 0, "CEFAEDFE");
    proof {
        reveal_strlit("Mach-O 64-bit BE");
        reveal_strlit("CFFAEDFE");
    }
    def(v, "Mach-O 64-bit BE", Some("application/x-mach-binary"), None, 0, "CFFAEDFE");
    proof {
        reveal_strlit("Mach-O Universal");
        reveal_strlit("CAFEBABE");
    }
    def(v, "Mach-O Universal", Some("application/x-mach-binary"), None, 0, "CAFEBABE");
    proof {
        reveal_strlit("COFF object (i386)");
        reveal_strlit("4C01");
        reveal_strlit(".o");
    }
    def(v, "COFF object (i386)", Some("application/x-coff"), Some(".o"), 0, "4C01");
    proof {
        reveal_strlit("COFF object (x64)");
        reveal_strlit("8664");
        reveal_strlit(".o");
    }
    def(v, "COFF object (x64)", Some("application/x-coff"), Some(".o"), 0, "8664");
    proof {
        reveal_strlit("MS-DOS COM");
        reveal_strlit("EB");
        reveal_strlit(".com");
    }
    def(v, "MS-DOS COM", Some("application/x-msdos-program"), Some(".com"), 0, "EB");
    proof {
        reveal_strlit("PDF document");
        reveal_strlit("255044462D");
        reveal_strlit(".pdf");
    }
    def(v, "PDF document", Some("application/pdf"), Some(".pdf"), 0, "255044462D");
    proof {
        reveal_strlit("OLE2 Compound (DOC/XLS)");
        reveal_strlit("D0CF11E0A1B11AE1");
        reveal_strlit(".doc");
    }
    def(v, "OLE2 Compound (DOC/XLS)", Some("application/x-ole-storage"), Some(".doc"), 0, "D0CF11E0A1B11AE1");
    proof {
        reveal_strlit("RTF document");
        reveal_strlit("7B5C72746631");
        reveal_strlit(".rtf");
    }
    def(v, "RTF document", Some("application/rtf"), Some(".rtf"), 0, "7B5C72746631");
    proof {
        reveal_strlit("PostScript");
        reveal_strlit("25215053");
        reveal_strlit(".ps");
    }
    def(v, "PostScript", Some("application/postscript"), Some(".ps"), 0, "25215053");
    proof {
        reveal_strlit("DjVu document");
        reveal_strlit("41542654464F524D");
        reveal_strlit(".djvu");
    }
    def(v, "DjVu document", Some("image/vnd.djvu"), Some(".djvu"), 0, "41542654464F524D");
    proof {
        reveal_strlit("CHM compiled help");
        reveal_strlit("49545346");
        reveal_strlit(".chm");
    }
    def(v, "CHM compiled help", Some("application/x-chm"), Some(".chm"), 0, "49545346");
    proof {
        reveal_strlit("EPUB ebook");
        reveal_strlit("504B0304");
        reveal_strlit(".epub");
    }
    def(v, "EPUB ebook", Some("application/epub+zip"), Some(".epub"), 0, "504B0304");
    proof {
        reveal_strlit("MOBI ebook");
        reveal_strlit("424F4F4B4D4F4249");
        reveal_strlit(".mobi");
    }
    def(v, "MOBI ebook", Some("application/x-mobipocket-ebook"), Some(".mobi"), 0, "424F4F4B4D4F4249");
    assert(v@ =~= old(v)@ + seed_chunk_3());
}

fn seed_part_4(v: &mut Vec<SigDef>)
    requires
        all_ok(old(v)@),
    ensures
        final(v)@ == old(v)@ + seed_chunk_4(),
        all_ok(final(v)@),
{
    proof {
        reveal_strlit("Apple Pages");
        reveal_strlit("504B0304");
        reveal_strlit(".pages");
    }
    def(v, "Apple Pages", Some("application/x-iwork-pages"), Some(".pages"), 0, "504B0304");
    proof {
        reveal_strlit("Apple Numbers");
        reveal_strlit("504B0304");
        reveal_strlit(".numbers");
    }
    def(v, "Apple Numbers", Some("application/x-iwork-numbers"), Some(".numbers"), 0, "504B0304");
    proof {
        reveal_strlit("Apple Keynote");
        reveal_strlit("504B0304");
        reveal_strlit(".key");
    }
    def(v, "Apple Keynote", Some("application/x-iwork-keynote"), Some(".key"), 0, "504B0304");
    proof {
        reveal_strlit("Microsoft OneNote");
        reveal_strlit("E4525C7B8CD8");
        reveal_strlit(".one");
    }
    def(v, "Microsoft OneNote", Some("application/onenote"), Some(".one"), 0, "E4525C7B8CD8");
    proof {
        reveal_strlit("HTML5 document");
        reveal_strlit("3C21444F4354595045");
        reveal_strlit(".html");
    }
    def(v, "HTML5 document", Some("text/html"), Some(".html"), 0, "3C21444F4354595045");
    proof {
        reveal_strlit("XML document");
        reveal_strlit("3C3F786D6C20");
        reveal_strlit(".xml");
    }
    def(v, "XML document", Some("application/xml"), Some(".xml"), 0, "3C3F786D6C20");
    proof {
        reveal_strlit("JSON data");
        reveal_strlit("7B");
        reveal_strlit(".json");
    }
    def(v, "JSON data", Some("application/json"), Some(".json"), 0, "7B");
    proof {
        reveal_strlit("TeX DVI");
        reveal_strlit("F702");
        reveal_strlit(".dvi");
    }
    def(v, "TeX DVI", Some("application/x-dvi"), Some(".dvi"), 0, "F702");
    proof {
        reveal_strlit("WinHelp (HLP)");
        reveal_strlit("3F5F03");
        reveal_strlit(".hlp");
    }
    def(v, "WinHelp (HLP)", Some("application/winhlp"), Some(".hlp"), 0, "3F5F03");
    proof {
        reveal_strlit("WAV audio");
        reveal_strlit("52494646");
        reveal_strlit(".wav");
    }
    def(v, "WAV audio", Some("audio/wav"), Some(".wav"), 0, "52494646");
    proof {
        reveal_strlit("MP3 ID3v2");
        reveal_strlit("494433");
        reveal_strlit(".mp3");
    }
    def(v, "MP3 ID3v2", Some("audio/mpeg"), Some(".mp3"), 0, "494433");
    proof {
        reveal_strlit("MP3 MPEG v1");
        reveal_strlit("FFFB");
        reveal_strlit(".mp3");
    }
    def(v, "MP3 MPEG v1", Some("audio/mpeg"), Some(".mp3"), 0, "FFFB");
    proof {
        reveal_strlit("MP3 MPEG v1 no CRC");
        reveal_strlit("FFF3");
        reveal_strlit(".mp3");
    }
    def(v, "MP3 MPEG v1 no CRC", Some("audio/mpeg"), Some(".mp3"), 0, "FFF3");
    proof {
        reveal_strlit("FLAC audio");
        reveal_strlit("664C6143");
        reveal_strlit(".flac");
    }
    def(v, "FLAC audio", Some("audio/flac"), Some(".flac"), 0, "664C6143");
    proof {
        reveal_strlit("OGG audio");
        reveal_strlit("4F676753");
        reveal_strlit(".ogg");
    }
    def(v, "OGG audio", Some("audio/ogg"), Some(".ogg"), 0, "4F676753");
    proof {
        reveal_strlit("Opus audio");
        reveal_strlit("4F676753");
        reveal_strlit(".opus");
    }
    def(v, "Opus audio", Some("audio/opus"), Some(".opus"), 0, "4F676753");
    proof {
        reveal_strlit("Speex audio");
        reveal_strlit("4F676753");
        reveal_strlit(".spx");
    }
    def(v, "Speex audio", Some("audio/speex"), Some(".spx"), 0, "4F676753");
    proof {
        reveal_strlit("MIDI audio");
        reveal_strlit("4D546864");
        reveal_strlit(".mid");
    }
    def(v, "MIDI audio", Some("audio/midi"), Some(".mid"), 0, "4D546864");
    proof {
        reveal_strlit("AIFF audio");
        reveal_strlit("464F524D");
        reveal_strlit(".aiff");
    }
    def(v, "AIFF audio", Some("audio/aiff"), Some(".aiff"), 0, "464F524D");
    proof {
        reveal_strlit("AAC ADTS");
        reveal_strlit("FFF1");
        reveal_strlit(".aac");
    }
    def(v, "AAC ADTS", Some("audio/aac"), Some(".aac"), 0, "FFF1");
    proof {
        reveal_strlit("AAC ADIF");
        reveal_strlit("FFF9");
        reveal_strlit(".aac");
    }
    def(v, "AAC ADIF", Some("audio/aac"), Some(".aac"), 0, "FFF9");
    proof {
        reveal_strlit("AC-3 Dolby Digital");
        reveal_strlit("0B77");
        reveal_strlit(".ac3");
    }
    def(v, "AC-3 Dolby Digital", Some("audio/ac3"), Some(".ac3"), 0, "0B77");
    proof {
        reveal_strlit("E-AC-3 Dolby+");
        reveal_strlit("0B78");
        reveal_strlit(".eac3");
    }
    def(v, "E-AC-3 Dolby+", Some("audio/eac3"), Some(".eac3"), 0, "0B78");
    proof {
        reveal_strlit("WMA audio (ASF)");
        reveal_strlit("3026B2758E66CF11");
        reveal_strlit(".wma");
    }
    def(v, "WMA audio (ASF)", Some("audio/x-ms-wma"), Some(".wma"), 0, "3026B2758E66CF11");
    proof {
        reveal_strlit("APE Monkey's Audio");
        reveal_strlit("4D414320");
        reveal_strlit(".ape");
    }
    def(v, "APE Monkey's Audio", Some("audio/x-ape"), Some(".ape"), 0, "4D414320");
    proof {
        reveal_strlit("WavPack audio");
        reveal_strlit("7776706B");
        reveal_strlit(".wv");
    }
    def(v, "WavPack audio", Some("audio/x-wavpack"), Some(".wv"), 0, "7776706B");
    proof {
        reveal_strlit("TrueAudio TTA");
        reveal_strlit("54544131");
        reveal_strlit(".tta");
    }
    def(v, "TrueAudio TTA", Some("audio/x-tta"), Some(".tta"), 0, "54544131");
    proof {
        reveal_strlit("AMR audio");
        reveal_strlit("2321414D52");
        reveal_strlit(".amr");
    }
    def(v, "AMR audio", Some("audio/amr"), Some(".amr"), 0, "2321414D52");
    assert(v@ =~= old(v)@ + seed_chunk_4());
}

fn seed_part_5(v: &mut Vec<SigDef>)
    requires
        all_ok(old(v)@),
    ensures
        final(v)@ == old(v)@ + seed_chunk_5(),
        all_ok(final(v)@),
{
    proof {
        reveal_strlit("RealAudio");
        reveal_strlit("2E7261FD");
        reveal_strlit(".ra");
    }
    def(v, "RealAudio", Some("audio/vnd.rn-realaudio"), Some(".ra"), 0, "2E7261FD");
    proof {
        reveal_strlit("CAF (Apple)");
        reveal_strlit("63616666");
        reveal_strlit(".caf");
    }
    def(v, "CAF (Apple)", Some("audio/x-caf"), Some(".caf"), 0, "63616666");
    proof {
        reveal_strlit("AU/SND audio");
        reveal_strlit("2E736E64");
        reveal_strlit(".au");
    }
    def(v, "AU/SND audio", Some("audio/basic"), Some(".au"), 0, "2E736E64");
    proof {
        reveal_strlit("M4A audio (MP4)");
        reveal_strlit("66747970");
        reveal_strlit(".m4a");
    }
    def(v, "M4A audio (MP4)", Some("audio/mp4"), Some(".m4a"), 4, "66747970");
    proof {
        reveal_strlit("MP4 base media");
        reveal_strlit("66747970");
        reveal_strlit(".mp4");
    }
    def(v, "MP4 base media", Some("video/mp4"), Some(".mp4"), 4, "66747970");
    proof {
        reveal_strlit("QuickTime MOV");
        reveal_strlit("667479706D6F6F76");
        reveal_strlit(".mov");
    }
    def(v, "QuickTime MOV", Some("video/quicktime"), Some(".mov"), 4, "667479706D6F6F76");
    proof {
        reveal_strlit("AVI video");
        reveal_strlit("52494646");
        reveal_strlit(".avi");
    }
    def(v, "AVI video", Some("video/x-msvideo"), Some(".avi"), 0, "52494646");
    proof {
        reveal_strlit("Matroska MKV");
        reveal_strlit("1A45DFA3");
        reveal_strlit(".mkv");
    }
    def(v, "Matroska MKV", Some("video/x-matroska"), Some(".mkv"), 0, "1A45DFA3");
    proof {
        reveal_strlit("WebM video");
        reveal_strlit("1A45DFA3");
        reveal_strlit(".webm");
    }
    def(v, "WebM video", Some("video/webm"), Some(".webm"), 0, "1A45DFA3");
    proof {
        reveal_strlit("WMV video (ASF)");
        reveal_strlit("3026B2758E66CF11");
        reveal_strlit(".wmv");
    }
    def(v, "WMV video (ASF)", Some("video/x-ms-wmv"), Some(".wmv"), 0, "3026B2758E66CF11");
    proof {
        reveal_strlit("FLV video");
        reveal_strlit("464C5601");
        reveal_strlit(".flv");
    }
    def(v, "FLV video", Some("video/x-flv"), Some(".flv"), 0, "464C5601");
    proof {
        reveal_strlit("Flash SWF");
        reveal_strlit("465753");
        reveal_strlit(".swf");
    }
    def(v, "Flash SWF", Some("application/x-shockwave-flash"), Some(".swf"), 0, "465753");
    proof {
        reveal_strlit("Flash SWF compressed");
        reveal_strlit("435753");
        reveal_strlit(".swf");
    }
    def(v, "Flash SWF compressed", Some("application/x-shockwave-flash"), Some(".swf"), 0, "435753");
    proof {
        reveal_strlit("MPEG-1 PS");
        reveal_strlit("000001BA");
        reveal_strlit(".mpg");
    }
    def(v, "MPEG-1 PS", Some("video/mpeg"), Some(".mpg"), 0, "000001BA");
    proof {
        reveal_strlit("MPEG-2 TS");
        reveal_strlit("47");
        reveal_strlit(".ts");
    }
    def(v, "MPEG-2 TS", Some("video/mp2t"), Some(".ts"), 0, "47");
    proof {
        reveal_strlit("3GPP video");
        reveal_strlit("66747970336770");
        reveal_strlit(".3gp");
    }
    def(v, "3GPP video", Some("video/3gpp"), Some(".3gp"), 4, "66747970336770");
    proof {
        reveal_strlit("Bink video");
        reveal_strlit("42494B");
        reveal_strlit(".bik");
    }
    def(v, "Bink video", Some("video/x-bink"), Some(".bik"), 0, "42494B");
    proof {
        reveal_strlit("RealMedia");
        reveal_strlit("2E524D46");
        reveal_strlit(".rm");
    }
    def(v, "RealMedia", Some("video/vnd.rn-realvideo"), Some(".rm"), 0, "2E524D46");
    proof {
        reveal_strlit("VP8 (IVF)");
        reveal_strlit("444B4946");
        reveal_strlit(".ivf");
    }
    def(v, "VP8 (IVF)", Some("video/x-ivf"), Some(".ivf"), 0, "444B4946");
    proof {
        reveal_strlit("DV video");
        reveal_strlit("1F0700");
        reveal_strlit(".dv");
    }
    def(v, "DV video", Some("video/x-dv"), Some(".dv"), 0, "1F0700");
    proof {
        reveal_strlit("MXF broadcast");
        reveal_strlit("060E2B3402040100");
        reveal_strlit(".mxf");
    }
    def(v, "MXF broadcast", Some("application/mxf"), Some(".mxf"), 0, "060E2B3402040100");
    proof {
        reveal_strlit("H.264 NAL unit");
        reveal_strlit("00000001");
        reveal_strlit(".h264");
    }
    def(v, "H.264 NAL unit", Some("video/h264"), Some(".h264"), 0, "00000001");
    proof {
        reveal_strlit("HEVC/H.265 NAL");
        reveal_strlit("00000001");
        reveal_strlit(".h265");
    }
    def(v, "HEVC/H.265 NAL", Some("video/hevc"), Some(".h265"), 0, "00000001");
    proof {
        reveal_strlit("AV1 (IVF)");
        reveal_strlit("444B4946");
        reveal_strlit(".ivf");
    }
    def(v, "AV1 (IVF)", Some("video/av1"), Some(".ivf"), 0, "444B4946");
    proof {
        reveal_strlit("TrueType font");
        reveal_strlit("0001000000");
        reveal_strlit(".ttf");
    }
    def(v, "TrueType font", Some("font/ttf"), Some(".ttf"), 0, "0001000000");
    proof {
        reveal_strlit("OpenType font");
        reveal_strlit("4F54544F");
        reveal_strlit(".otf");
    }
    def(v, "OpenType font", Some("font/otf"), Some(".otf"), 0, "4F54544F");
    proof {
        reveal_strlit("WOFF font");
        reveal_strlit("774F4646");
        reveal_strlit(".woff");
    }
    def(v, "WOFF font", Some("font/woff"), Some(".woff"), 0, "774F4646");
    proof {
        reveal_strlit("WOFF2 font");
        reveal_strlit("774F4632");
        reveal_strlit(".woff2");
    }
    def(v, "WOFF2 font", Some("font/woff2"), Some(".woff2"), 0, "774F4632");
    assert(v@ =~= old(v)@ + seed_chunk_5());
}

fn seed_part_6(v: &mut Vec<SigDef>)
    requires
        all_ok(old(v)@),
    ensures
        final(v)@ == old(v)@ + seed_chunk_6(),
        all_ok(final(v)@),
{
    proof {
        reveal_strlit("PCF bitmap font");
        reveal_strlit("01666370");
        reveal_strlit(".pcf");
    }
    def(v, "PCF bitmap font", Some("application/x-font-pcf"), Some(".pcf"), 0, "01666370");
    proof {
        reveal_strlit("BDF bitmap font");
        reveal_strlit("5354415254464F4E54");
        reveal_strlit(".bdf");
    }
    def(v, "BDF bitmap font", Some("application/x-font-bdf"), Some(".bdf"), 0, "5354415254464F4E54");
    proof {
        reveal_strlit("Type1 PFB font");
        reveal_strlit("8001");
        reveal_strlit(".pfb");
    }
    def(v, "Type1 PFB font", Some("application/x-font-type1"), Some(".pfb"), 0, "8001");
    proof {
        reveal_strlit("ISO 9660 CD image");
        reveal_strlit("4344303031");
        reveal_strlit(".iso");
    }
    def(v, "ISO 9660 CD image", Some("application/x-iso9660-image"), Some(".iso"), 32769, "4344303031");
    proof {
        reveal_strlit("UDF filesystem");
        reveal_strlit("4E535230");
        reveal_strlit(".iso");
    }
    def(v, "UDF filesystem", Some("application/x-udf"), Some(".iso"), 32768, "4E535230");
    proof {
        reveal_strlit("NTFS filesystem");
        reveal_strlit("4E54465320202020");
    }
    def(v, "NTFS filesystem", Some("application/x-ntfs"), None, 3, "4E54465320202020");
    proof {
        reveal_strlit("ext2/ext3/ext4 fs");
        reveal_strlit("53EF");
    }
    def(v, "ext2/ext3/ext4 fs", Some("application/x-ext4"), None, 1080, "53EF");
    proof {
        reveal_strlit("XFS filesystem");
        reveal_strlit("58465342");
    }
    def(v, "XFS filesystem", Some("application/x-xfs"), None, 0, "58465342");
    proof {
        reveal_strlit("Btrfs filesystem");
        reveal_strlit("5F42485246534D5F");
    }
    def(v, "Btrfs filesystem", Some("application/x-btrfs"), None, 65536, "5F42485246534D5F");
    proof {
        reveal_strlit("VHD disk image");
        reveal_strlit("636F6E6563746978");
        reveal_strlit(".vhd");
    }
    def(v, "VHD disk image", Some("application/x-vhd"), Some(".vhd"), 0, "636F6E6563746978");
    proof {
        reveal_strlit("VHDX disk image");
        reveal_strlit("7668647866696C65");
        reveal_strlit(".vhdx");
    }
    def(v, "VHDX disk image", Some("application/x-vhdx"), Some(".vhdx"), 0, "7668647866696C65");
    proof {
        reveal_strlit("VMDK disk");
        reveal_strlit("4B444D");
        reveal_strlit(".vmdk");
    }
    def(v, "VMDK disk", Some("application/x-vmdk"), Some(".vmdk"), 0, "4B444D");
    proof {
        reveal_strlit("Apple DMG");
        reveal_strlit("7801730D626260");
        reveal_strlit(".dmg");
    }
    def(v, "Apple DMG", Some("application/x-apple-diskimage"), Some(".dmg"), 0, "7801730D626260");
    proof {
        reveal_strlit("QEMU QCOW2");
        reveal_strlit("514649FB");
        reveal_strlit(".qcow2");
    }
    def(v, "QEMU QCOW2", Some("application/x-qcow2"), Some(".qcow2"), 0, "514649FB");
    proof {
        reveal_strlit("VirtualBox VDI");
        reveal_strlit("3C3C3C20");
        reveal_strlit(".vdi");
    }
    def(v, "VirtualBox VDI", Some("application/x-vdi"), Some(".vdi"), 0, "3C3C3C20");
    proof {
        reveal_strlit("FAT filesystem");
        reveal_strlit("EB");
    }
    def(v, "FAT filesystem", Some("application/x-fat"), None, 0, "EB");
    proof {
        reveal_strlit("SQLite3 database");
        reveal_strlit("53514C69746520666F726D6174203300");
        reveal_strlit(".sqlite");
    }
    def(v, "SQLite3 database", Some("application/x-sqlite3"), Some(".sqlite"), 0, "53514C69746520666F726D6174203300");
    proof {
        reveal_strlit("SQLite3 WAL");
        reveal_strlit("377F0682");
        reveal_strlit(".sqlite-wal");
    }
    def(v, "SQLite3 WAL", Some("application/x-sqlite3"), Some(".sqlite-wal"), 0, "377F0682");
    proof {
        reveal_strlit("Berkeley DB (btree)");
        reveal_strlit("00053162");
        reveal_strlit(".db");
    }
    def(v, "Berkeley DB (btree)", Some("application/x-bdb"), Some(".db"), 0, "00053162");
    proof {
        reveal_strlit("Berkeley DB (hash)");
        reveal_strlit("00053161");
        reveal_strlit(".db");
    }
    def(v, "Berkeley DB (hash)", Some("application/x-bdb"), Some(".db"), 0, "00053161");
    proof {
        reveal_strlit("LMDB database");
        reveal_strlit("01000000");
        reveal_strlit(".mdb");
    }
    def(v, "LMDB database", Some("application/x-lmdb"), Some(".mdb"), 0, "01000000");
    proof {
        reveal_strlit("MS Access MDB");
        reveal_strlit("000100005374616E");
        reveal_strlit(".mdb");
    }
    def(v, "MS Access MDB", Some("application/x-msaccess"), Some(".mdb"), 0, "000100005374616E");
    proof {
        reveal_strlit("MS Access ACCDB");
        reveal_strlit("00010000416363");
        reveal_strlit(".accdb");
    }
    def(v, "MS Access ACCDB", Some("application/x-msaccess"), Some(".accdb"), 0, "00010000416363");
    proof {
        reveal_strlit("Parquet file");
        reveal_strlit("50415231");
        reveal_strlit(".parquet");
    }
    def(v, "Parquet file", Some("application/x-parquet"), Some(".parquet"), 0, "50415231");
    proof {
        reveal_strlit("HDF5 data");
        reveal_strlit("89484446");
        reveal_strlit(".h5");
    }
    def(v, "HDF5 data", Some("application/x-hdf5"), Some(".h5"), 0, "89484446");
    proof {
        reveal_strlit("Redis RDB dump");
        reveal_strlit("5245444953");
        reveal_strlit(".rdb");
    }
    def(v, "Redis RDB dump", Some("application/x-redis-dump"), Some(".rdb"), 0, "5245444953");
    proof {
        reveal_strlit("Java class file");
        reveal_strlit("CAFEBABE");
        reveal_strlit(".class");
    }
    def(v, "Java class file", Some("application/java-vm"), Some(".class"), 0, "CAFEBABE");
    proof {
        reveal_strlit("Dalvik DEX");
        reveal_strlit("6465780A");
        reveal_strlit(".dex");
    }
    def(v, "Dalvik DEX", Some("application/x-dex"), Some(".dex"), 0, "6465780A");
    assert(v@ =~= old(v)@ + seed_chunk_6());
}

fn seed_part_7(v: &mut Vec<SigDef>)
    requires
        all_ok(old(v)@),
    ensures
        final(v)@ == old(v)@ + seed_chunk_7(),
        all_ok(final(v)@),
{
    proof {
        reveal_strlit("WebAssembly WASM");
        reveal_strlit("0061736D");
        reveal_strlit(".wasm");
    }
    def(v, "WebAssembly WASM", Some("application/wasm"), Some(".wasm"), 0, "0061736D");
    proof {
        reveal_strlit("Lua bytecode 5.1");
        reveal_strlit("1B4C7561");
        reveal_strlit(".luac");
    }
    def(v, "Lua bytecode 5.1", Some("application/x-lua-bytecode"), Some(".luac"), 0, "1B4C7561");
    proof {
        reveal_strlit("Python bytecode 3.3+");
        reveal_strlit("42");
        reveal_strlit(".pyc");
    }
    def(v, "Python bytecode 3.3+", Some("application/x-python-bytecode"), Some(".pyc"), 0, "42");
    proof {
        reveal_strlit("LLVM bitcode");
        reveal_strlit("4243");
        reveal_strlit(".bc");
    }
    def(v, "LLVM bitcode", Some("application/x-llvm-bitcode"), Some(".bc"), 0, "4243");
    proof {
        reveal_strlit("X.509 DER cert");
        reveal_strlit("3082");
        reveal_strlit(".cer");
    }
    def(v, "X.509 DER cert", Some("application/pkix-cert"), Some(".cer"), 0, "3082");
    proof {
        reveal_strlit("PKCS#12 PFX");
        reveal_strlit("3084");
        reveal_strlit(".pfx");
    }
    def(v, "PKCS#12 PFX", Some("application/x-pkcs12"), Some(".pfx"), 0, "3084");
    proof {
        reveal_strlit("OpenPGP public key");
        reveal_strlit("2D2D2D2D2D424547494E2050");
        reveal_strlit(".asc");
    }
    def(v, "OpenPGP public key", Some("application/pgp-keys"), Some(".asc"), 0, "2D2D2D2D2D424547494E2050");
    proof {
        reveal_strlit("OpenPGP message");
        reveal_strlit("2D2D2D2D2D424547494E2050");
        reveal_strlit(".pgp");
    }
    def(v, "OpenPGP message", Some("application/pgp-message"), Some(".pgp"), 0, "2D2D2D2D2D424547494E2050");
    proof {
        reveal_strlit("SSH private key");
        reveal_strlit("2D2D2D2D2D424547494E204F5045");
    }
    def(v, "SSH private key", Some("text/plain"), None, 0, "2D2D2D2D2D424547494E204F5045");
    proof {
        reveal_strlit("SSH RSA public key");
        reveal_strlit("7373682D72736100");
        reveal_strlit(".pub");
    }
    def(v, "SSH RSA public key", Some("text/plain"), Some(".pub"), 0, "7373682D72736100");
    proof {
        reveal_strlit("PEM certificate");
        reveal_strlit("2D2D2D2D2D424547494E204345");
        reveal_strlit(".pem");
    }
    def(v, "PEM certificate", Some("application/x-pem-file"), Some(".pem"), 0, "2D2D2D2D2D424547494E204345");
    proof {
        reveal_strlit("Java KeyStore JKS");
        reveal_strlit("FECAFE");
        reveal_strlit(".jks");
    }
    def(v, "Java KeyStore JKS", Some("application/x-java-keystore"), Some(".jks"), 0, "FECAFE");
    proof {
        reveal_strlit("Bitcoin wallet");
        reveal_strlit("F9BEB4D9");
        reveal_strlit(".dat");
    }
    def(v, "Bitcoin wallet", Some("application/x-bitcoin-wallet"), Some(".dat"), 0, "F9BEB4D9");
    proof {
        reveal_strlit("PCAP (LE)");
        reveal_strlit("D4C3B2A1");
        reveal_strlit(".pcap");
    }
    def(v, "PCAP (LE)", Some("application/vnd.tcpdump.pcap"), Some(".pcap"), 0, "D4C3B2A1");
    proof {
        reveal_strlit("PCAP (BE)");
        reveal_strlit("A1B2C3D4");
        reveal_strlit(".pcap");
    }
    def(v, "PCAP (BE)", Some("application/vnd.tcpdump.pcap"), Some(".pcap"), 0, "A1B2C3D4");
    proof {
        reveal_strlit("PCAPNG capture");
        reveal_strlit("0A0D0D0A");
        reveal_strlit(".pcapng");
    }
    def(v, "PCAPNG capture", Some("application/vnd.tcpdump.pcap"), Some(".pcapng"), 0, "0A0D0D0A");
    proof {
        reveal_strlit("Android APK");
        reveal_strlit("504B0304");
        reveal_strlit(".apk");
    }
    def(v, "Android APK", Some("application/vnd.android.package-archive"), Some(".apk"), 0, "504B0304");
    proof {
        reveal_strlit("Android boot img");
        reveal_strlit("414E44524F494421");
        reveal_strlit(".img");
    }
    def(v, "Android boot img", Some("application/x-android-boot"), Some(".img"), 0, "414E44524F494421");
    proof {
        reveal_strlit("STL binary 3D");
        reveal_strlit("434453");
        reveal_strlit(".stl");
    }
    def(v, "STL binary 3D", Some("application/sla"), Some(".stl"), 0, "434453");
    proof {
        reveal_strlit("OBJ 3D model");
        reveal_strlit("23");
        reveal_strlit(".obj");
    }
    def(v, "OBJ 3D model", Some("model/obj"), Some(".obj"), 0, "23");
    proof {
        reveal_strlit("3DS Max model");
        reveal_strlit("4D4D");
        reveal_strlit(".3ds");
    }
    def(v, "3DS Max model", Some("application/x-3ds"), Some(".3ds"), 0, "4D4D");
    proof {
        reveal_strlit("Collada DAE");
        reveal_strlit("3C3F786D6C");
        reveal_strlit(".dae");
    }
    def(v, "Collada DAE", Some("model/vnd.collada+xml"), Some(".dae"), 0, "3C3F786D6C");
    proof {
        reveal_strlit("FBX binary");
        reveal_strlit("4B61794461726120");
        reveal_strlit(".fbx");
    }
    def(v, "FBX binary", Some("application/x-fbx"), Some(".fbx"), 0, "4B61794461726120");
    proof {
        reveal_strlit("GLB 3D model");
        reveal_strlit("676C5446");
        reveal_strlit(".glb");
    }
    def(v, "GLB 3D model", Some("model/gltf-binary"), Some(".glb"), 0, "676C5446");
    proof {
        reveal_strlit("AutoCAD DWG");
        reveal_strlit("41433130");
        reveal_strlit(".dwg");
    }
    def(v, "AutoCAD DWG", Some("image/vnd.dwg"), Some(".dwg"), 0, "41433130");
    proof {
        reveal_strlit("PLY point cloud");
        reveal_strlit("706C7920");
        reveal_strlit(".ply");
    }
    def(v, "PLY point cloud", Some("application/x-ply"), Some(".ply"), 0, "706C7920");
    proof {
        reveal_strlit("Nintendo NES ROM");
        reveal_strlit("4E45531A");
        reveal_strlit(".nes");
    }
    def(v, "Nintendo NES ROM", Some("application/x-nintendo-nes-rom"), Some(".nes"), 0, "4E45531A");
    proof {
        reveal_strlit("Nintendo 64 ROM");
        reveal_strlit("80371240");
        reveal_strlit(".z64");
    }
    def(v, "Nintendo 64 ROM", Some("application/x-nintendo-64-rom"), Some(".z64"), 0, "80371240");
    assert(v@ =~= old(v)@ + seed_chunk_7());
}

fn seed_part_8(v: &mut Vec<SigDef>)
    requires
        all_ok(old(v)@),
    ensures
        final(v)@ == old(v)@ + seed_chunk_8(),
        all_ok(final(v)@),
{
    proof {
        reveal_strlit("Nintendo DS ROM");
        reveal_strlit("00010000");
        reveal_strlit(".nds");
    }
    def(v, "Nintendo DS ROM", Some("application/x-nintendo-ds-rom"), Some(".nds"), 0, "00010000");
    proof {
        reveal_strlit("Nintendo GBA ROM");
        reveal_strlit("00008000");
        reveal_strlit(".gba");
    }
    def(v, "Nintendo GBA ROM", Some("application/x-nintendo-gba-rom"), Some(".gba"), 0, "00008000");
    proof {
        reveal_strlit("Sega Genesis ROM");
        reveal_strlit("00000800");
        reveal_strlit(".md");
    }
    def(v, "Sega Genesis ROM", Some("application/x-sega-genesis-rom"), Some(".md"), 0, "00000800");
    proof {
        reveal_strlit("PSX EXE");
        reveal_strlit("00000100");
        reveal_strlit(".exe");
    }
    def(v, "PSX EXE", Some("application/x-playstation-exe"), Some(".exe"), 0, "00000100");
    proof {
        reveal_strlit("Windows LNK shortcut");
        reveal_strlit("4C00000001140200");
        reveal_strlit(".lnk");
    }
    def(v, "Windows LNK shortcut", Some("application/x-ms-shortcut"), Some(".lnk"), 0, "4C00000001140200");
    proof {
        reveal_strlit("Windows registry hive");
        reveal_strlit("72656766");
    }
    def(v, "Windows registry hive", Some("application/x-ms-registry"), None, 0, "72656766");
    proof {
        reveal_strlit("Windows EVTX log");
        reveal_strlit("456C6646696C65");
        reveal_strlit(".evtx");
    }
    def(v, "Windows EVTX log", Some("application/x-ms-evtx"), Some(".evtx"), 0, "456C6646696C65");
    proof {
        reveal_strlit("Windows Minidump");
        reveal_strlit("4D444D5093A7");
        reveal_strlit(".dmp");
    }
    def(v, "Windows Minidump", Some("application/x-ms-minidump"), Some(".dmp"), 0, "4D444D5093A7");
    proof {
        reveal_strlit("RPM package");
        reveal_strlit("EDABEEDB");
        reveal_strlit(".rpm");
    }
    def(v, "RPM package", Some("application/x-rpm"), Some(".rpm"), 0, "EDABEEDB");
    proof {
        reveal_strlit("DEB package");
        reveal_strlit("213C617263683E");
        reveal_strlit(".deb");
    }
    def(v, "DEB package", Some("application/vnd.debian.binary-package"), Some(".deb"), 0, "213C617263683E");
    proof {
        reveal_strlit("MSI installer");
        reveal_strlit("D0CF11E0A1B11AE1");
        reveal_strlit(".msi");
    }
    def(v, "MSI installer", Some("application/x-msi"), Some(".msi"), 0, "D0CF11E0A1B11AE1");
    proof {
        reveal_strlit("Shapefile SHP");
        reveal_strlit("0000270A00000000");
        reveal_strlit(".shp");
    }
    def(v, "Shapefile SHP", Some("application/x-esri-shape"), Some(".shp"), 0, "0000270A00000000");
    proof {
        reveal_strlit("GeoPackage");
        reveal_strlit("53514C697465");
        reveal_strlit(".gpkg");
    }
    def(v, "GeoPackage", Some("application/geopackage+sqlite3"), Some(".gpkg"), 0, "53514C697465");
    proof {
        reveal_strlit("U-Boot FIT image");
        reveal_strlit("D00DFEED");
        reveal_strlit(".itb");
    }
    def(v, "U-Boot FIT image", Some("application/x-fit-image"), Some(".itb"), 0, "D00DFEED");
    proof {
        reveal_strlit("U-Boot uImage");
        reveal_strlit("27051956");
        reveal_strlit(".img");
    }
    def(v, "U-Boot uImage", Some("application/x-u-boot"), Some(".img"), 0, "27051956");
    proof {
        reveal_strlit("FITS astronomy");
        reveal_strlit("53494D50");
        reveal_strlit(".fits");
    }
    def(v, "FITS astronomy", Some("application/fits"), Some(".fits"), 0, "53494D50");
    proof {
        reveal_strlit("DICOM medical");
        reveal_strlit("44434D");
        reveal_strlit(".dcm");
    }
    def(v, "DICOM medical", Some("application/dicom"), Some(".dcm"), 0, "44434D");
    proof {
        reveal_strlit("VTK visualization");
        reveal_strlit("2376746B");
        reveal_strlit(".vtk");
    }
    def(v, "VTK visualization", Some("application/x-vtk"), Some(".vtk"), 0, "2376746B");
    proof {
        reveal_strlit("Bash shell script");
        reveal_strlit("23212F62696E2F");
        reveal_strlit(".sh");
    }
    def(v, "Bash shell script", Some("text/x-shellscript"), Some(".sh"), 0, "23212F62696E2F");
    proof {
        reveal_strlit("Python script");
        reveal_strlit("23212F7573722F62696E2F");
        reveal_strlit(".py");
    }
    def(v, "Python script", Some("text/x-python"), Some(".py"), 0, "23212F7573722F62696E2F");
    proof {
        reveal_strlit("PHP script");
        reveal_strlit("3C3F706870");
        reveal_strlit(".php");
    }
    def(v, "PHP script", Some("text/x-php"), Some(".php"), 0, "3C3F706870");
    proof {
        reveal_strlit("Perl script");
        reveal_strlit("23212F7573722F62696E");
        reveal_strlit(".pl");
    }
    def(v, "Perl script", Some("text/x-perl"), Some(".pl"), 0, "23212F7573722F62696E");
    proof {
        reveal_strlit("Ruby script");
        reveal_strlit("23212F7573722F62696E2F");
        reveal_strlit(".rb");
    }
    def(v, "Ruby script", Some("text/x-ruby"), Some(".rb"), 0, "23212F7573722F62696E2F");
    proof {
        reveal_strlit("PostScript EPS");
        reveal_strlit("252150532D4164");
        reveal_strlit(".eps");
    }
    def(v, "PostScript EPS", Some("application/postscript"), Some(".eps"), 0, "252150532D4164");
    proof {
        reveal_strlit("FictionBook FB2");
        reveal_strlit("3C3F786D6C");
        reveal_strlit(".fb2");
    }
    def(v, "FictionBook FB2", Some("application/x-fictionbook+xml"), Some(".fb2"), 0, "3C3F786D6C");
    assert(v@ =~= old(v)@ + seed_chunk_8());
}

/// The built-in signatures that seed the database: archives, images,
/// executables, documents, audio, video, fonts, disk images, databases,
/// bytecode, keys and certificates, captures, 3D models, ROMs, system files,
/// packages, science formats and scripts.
pub fn seed_sigs() -> (res: Vec<SigDef>)
    ensures
        res@ == seed_list(),
        res@.len() == 221,
        all_ok(res@),
{
    let mut v: Vec<SigDef> = Vec::new();
    seed_part_1(&mut v);
    seed_part_2(&mut v);
    seed_part_3(&mut v);
    seed_part_4(&mut v);
    seed_part_5(&mut v);
    seed_part_6(&mut v);
    seed_part_7(&mut v);
    seed_part_8(&mut v);
    assert(v@ =~= seed_list());
    v
}

/// Entries 1 to 28 of the signatures that the fetcher always includes.
pub open spec fn embedded_chunk_1() -> Seq<SigDef> {
    seq![
        SigDef { name: "ZIP archive", mime: Some("application/zip"), extension: Some(".zip"), offset: 0, hex: "504B0304" },
        SigDef { name: "ZIP archive (empty)", mime: Some("application/zip"), extension: Some(".zip"), offset: 0, hex: "504B0506" },
        SigDef { name: "ZIP archive (spanned)", mime: Some("application/zip"), extension: Some(".zip"), offset: 0, hex: "504B0708" },
        SigDef { name: "RAR archive v1.5", mime: Some("application/vnd.rar"), extension: Some(".rar"), offset: 0, hex: "526172211A0700" },
        SigDef { name: "RAR archive v5", mime: Some("application/vnd.rar"), extension: Some(".rar"), offset: 0, hex: "526172211A070100" },
        SigDef { name: "7-Zip archive", mime: Some("application/x-7z-compressed"), extension: Some(".7z"), offset: 0, hex: "377ABCAF271C" },
        SigDef { name: "GZIP compressed", mime: Some("application/gzip"), extension: Some(".gz"), offset: 0, hex: "1F8B08" },
        SigDef { name: "BZIP2 compressed", mime: Some("application/x-bzip2"), extension: Some(".bz2"), offset: 0, hex: "425A68" },
        SigDef { name: "XZ compressed", mime: Some("application/x-xz"), extension: Some(".xz"), offset: 0, hex: "FD377A585A00" },
        SigDef { name: "TAR POSIX archive", mime: Some("application/x-tar"), extension: Some(".tar"), offset: 257, hex: "757374617200" },
        SigDef { name: "LZ4 compressed", mime: Some("application/x-lz4"), extension: Some(".lz4"), offset: 0, hex: "04224D18" },
        SigDef { name: "CAB archive", mime: Some("application/vnd.ms-cab-compressed"), extension: Some(".cab"), offset: 0, hex: "4D534346" },
        SigDef { name: "ARJ archive", mime: Some("application/x-arj"), extension: Some(".arj"), offset: 0, hex: "60EA" },
        SigDef { name: "Brotli compressed", mime: Some("application/brotli"), extension: Some(".br"), offset: 0, hex: "CEB2CF81" },
        SigDef { name: "SquashFS", mime: Some("application/x-squashfs"), extension: Some(".squashfs"), offset: 0, hex: "68737173" },
        SigDef { name: "Zstandard", mime: Some("application/zstd"), extension: Some(".zst"), offset: 0, hex: "28B52FFD" },
        SigDef { name: "PNG image", mime: Some("image/png"), extension: Some(".png"), offset: 0, hex: "89504E470D0A1A0A" },
        SigDef { name: "JPEG image", mime: Some("image/jpeg"), extension: Some(".jpg"), offset: 0, hex: "FFD8FF" },
        SigDef { name: "JPEG Exif", mime: Some("image/jpeg"), extension: Some(".jpg"), offset: 0, hex: "FFD8FFE1" },
        SigDef { name: "GIF89a", mime: Some("image/gif"), extension: Some(".gif"), offset: 0, hex: "474946383961" },
        SigDef { name: "GIF87a", mime: Some("image/gif"), extension: Some(".gif"), offset: 0, hex: "474946383761" },
        SigDef { name: "BMP image", mime: Some("image/bmp"), extension: Some(".bmp"), offset: 0, hex: "424D" },
        SigDef { name: "WebP image", mime: Some("image/webp"), extension: Some(".webp"), offset: 0, hex: "52494646" },
        SigDef { name: "TIFF little-endian", mime: Some("image/tiff"), extension: Some(".tiff"), offset: 0, hex: "49492A00" },
        SigDef { name: "TIFF big-endian", mime: Some("image/tiff"), extension: Some(".tiff"), offset: 0, hex: "4D4D002A" },
        SigDef { name: "ICO icon", mime: Some("image/x-icon"), extension: Some(".ico"), offset: 0, hex: "00000100" },
        SigDef { name: "Photoshop PSD", mime: Some("image/vnd.adobe.photoshop"), extension: Some(".psd"), offset: 0, hex: "38425053" },
        SigDef { name: "GIMP XCF", mime: Some("image/x-xcf"), extension: Some(".xcf"), offset: 0, hex: "67696D702078636620" },
    ]
}

/// Entries 29 to 56 of the signatures that the fetcher always includes.
pub open spec fn embedded_chunk_2() -> Seq<SigDef> {
    seq![
        SigDef { name: "HEIC image", mime: Some("image/heif"), extension: Some(".heic"), offset: 4, hex: "6674797068656963" },
        SigDef { name: "AVIF image", mime: Some("image/avif"), extension: Some(".avif"), offset: 4, hex: "6674797061766966" },
        SigDef { name: "JPEG 2000 JP2", mime: Some("image/jp2"), extension: Some(".jp2"), offset: 0, hex: "0000000C6A502020" },
        SigDef { name: "OpenEXR image", mime: Some("image/x-exr"), extension: Some(".exr"), offset: 0, hex: "762F3101" },
        SigDef { name: "KTX2 texture", mime: Some("image/ktx2"), extension: Some(".ktx2"), offset: 0, hex: "AB4B5458203230" },
        SigDef { name: "DDS texture", mime: Some("image/vnd.ms-dds"), extension: Some(".dds"), offset: 0, hex: "44445320" },
        SigDef { name: "QOI image", mime: Some("image/qoi"), extension: Some(".qoi"), offset: 0, hex: "716F6966" },
        SigDef { name: "Canon CR2 raw", mime: Some("image/x-canon-cr2"), extension: Some(".cr2"), offset: 0, hex: "49492A00100000004352" },
        SigDef { name: "Nikon NEF raw", mime: Some("image/x-nikon-nef"), extension: Some(".nef"), offset: 0, hex: "4D4D002A" },
        SigDef { name: "Sony ARW raw", mime: Some("image/x-sony-arw"), extension: Some(".arw"), offset: 0, hex: "49492A00" },
        SigDef { name: "PE executable", mime: Some("application/x-msdownload"), extension: Some(".exe"), offset: 0, hex: "4D5A" },
        SigDef { name: "LE executable (OS/2)", mime: Some("application/x-msdownload"), extension: Some(".exe"), offset: 0, hex: "4C45" },
        SigDef { name: "ELF 32-bit LSB", mime: Some("application/x-elf"), extension: None, offset: 0, hex: "7F454C4601010100" },
        SigDef { name: "ELF 64-bit LSB", mime: Some("application/x-elf"), extension: None, offset: 0, hex: "7F454C4602010100" },
        SigDef { name: "Mach-O 32-bit LE", mime: Some("application/x-mach-binary"), extension: None, offset: 0, hex: "FEEDFACE" },
        SigDef { name: "Mach-O 64-bit LE", mime: Some("application/x-mach-binary"), extension: None, offset: 0, hex: "FEEDFACF" },
        SigDef { name: "Mach-O Universal", mime: Some("application/x-mach-binary"), extension: None, offset: 0, hex: "CAFEBABE" },
        SigDef { name: "COFF object (x86)", mime: Some("application/x-coff"), extension: Some(".o"), offset: 0, hex: "4C01" },
        SigDef { name: "PDF document", mime: Some("application/pdf"), extension: Some(".pdf"), offset: 0, hex: "255044462D" },
        SigDef { name: "OLE2 Compound", mime: Some("application/x-ole-storage"), extension: Some(".doc"), offset: 0, hex: "D0CF11E0A1B11AE1" },
        SigDef { name: "RTF document", mime: Some("application/rtf"), extension: Some(".rtf"), offset: 0, hex: "7B5C72746631" },
        SigDef { name: "PostScript", mime: Some("application/postscript"), extension: Some(".ps"), offset: 0, hex: "25215053" },
        SigDef { name: "DjVu document", mime: Some("image/vnd.djvu"), extension: Some(".djvu"), offset: 0, hex: "41542654464F524D" },
        SigDef { name: "CHM help", mime: Some("application/x-chm"), extension: Some(".chm"), offset: 0, hex: "49545346" },
        SigDef { name: "WAV audio", mime: Some("audio/wav"), extension: Some(".wav"), offset: 0, hex: "52494646" },
        SigDef { name: "MP3 ID3v2", mime: Some("audio/mpeg"), extension: Some(".mp3"), offset: 0, hex: "494433" },
        SigDef { name: "MP3 MPEG v1", mime: Some("audio/mpeg"), extension: Some(".mp3"), offset: 0, hex: "FFFB" },
        SigDef { name: "FLAC audio", mime: Some("audio/flac"), extension: Some(".flac"), offset: 0, hex: "664C6143" },
    ]
}

/// Entries 57 to 84 of the signatures that the fetcher always includes.
pub open spec fn embedded_chunk_3() -> Seq<SigDef> {
    seq![
        SigDef { name: "OGG audio", mime: Some("audio/ogg"), extension: Some(".ogg"), offset: 0, hex: "4F676753" },
        SigDef { name: "Opus audio", mime: Some("audio/opus"), extension: Some(".opus"), offset: 0, hex: "4F676753" },
        SigDef { name: "MIDI audio", mime: Some("audio/midi"), extension: Some(".mid"), offset: 0, hex: "4D546864" },
        SigDef { name: "AIFF audio", mime: Some("audio/aiff"), extension: Some(".aiff"), offset: 0, hex: "464F524D" },
        SigDef { name: "AAC", mime: Some("audio/aac"), extension: Some(".aac"), offset: 0, hex: "FFF1" },
        SigDef { name: "AC-3 Dolby Digital", mime: Some("audio/ac3"), extension: Some(".ac3"), offset: 0, hex: "0B77" },
        SigDef { name: "WMA audio", mime: Some("audio/x-ms-wma"), extension: Some(".wma"), offset: 0, hex: "3026B2758E66CF11" },
        SigDef { name: "Monkey's Audio", mime: Some("audio/x-ape"), extension: Some(".ape"), offset: 0, hex: "4D414320" },
        SigDef { name: "TrueAudio TTA", mime: Some("audio/x-tta"), extension: Some(".tta"), offset: 0, hex: "54544131" },
        SigDef { name: "AMR audio", mime: Some("audio/amr"), extension: Some(".amr"), offset: 0, hex: "2321414D52" },
        SigDef { name: "MP4 video", mime: Some("video/mp4"), extension: Some(".mp4"), offset: 4, hex: "66747970" },
        SigDef { name: "QuickTime MOV", mime: Some("video/quicktime"), extension: Some(".mov"), offset: 4, hex: "667479706D6F6F76" },
        SigDef { name: "AVI video", mime: Some("video/x-msvideo"), extension: Some(".avi"), offset: 0, hex: "52494646" },
        SigDef { name: "Matroska MKV", mime: Some("video/x-matroska"), extension: Some(".mkv"), offset: 0, hex: "1A45DFA3" },
        SigDef { name: "WebM video", mime: Some("video/webm"), extension: Some(".webm"), offset: 0, hex: "1A45DFA3" },
        SigDef { name: "WMV video", mime: Some("video/x-ms-wmv"), extension: Some(".wmv"), offset: 0, hex: "3026B2758E66CF11" },
        SigDef { name: "FLV video", mime: Some("video/x-flv"), extension: Some(".flv"), offset: 0, hex: "464C5601" },
        SigDef { name: "Flash SWF", mime: Some("application/x-shockwave-flash"), extension: Some(".swf"), offset: 0, hex: "465753" },
        SigDef { name: "MPEG-1 System", mime: Some("video/mpeg"), extension: Some(".mpg"), offset: 0, hex: "000001BA" },
        SigDef { name: "MPEG-2 TS", mime: Some("video/mp2t"), extension: Some(".ts"), offset: 0, hex: "47" },
        SigDef { name: "3GPP video", mime: Some("video/3gpp"), extension: Some(".3gp"), offset: 4, hex: "66747970336770" },
        SigDef { name: "Bink video", mime: Some("video/x-bink"), extension: Some(".bik"), offset: 0, hex: "42494B" },
        SigDef { name: "DV video", mime: Some("video/x-dv"), extension: Some(".dv"), offset: 0, hex: "1F0700" },
        SigDef { name: "H.264 NAL", mime: Some("video/h264"), extension: Some(".h264"), offset: 0, hex: "00000001" },
        SigDef { name: "HEVC/H.265 NAL", mime: Some("video/hevc"), extension: Some(".h265"), offset: 0, hex: "00000001" },
        SigDef { name: "TrueType font", mime: Some("font/ttf"), extension: Some(".ttf"), offset: 0, hex: "0001000000" },
        SigDef { name: "OpenType font", mime: Some("font/otf"), extension: Some(".otf"), offset: 0, hex: "4F54544F" },
        SigDef { name: "WOFF font", mime: Some("font/woff"), extension: Some(".woff"), offset: 0, hex: "774F4646" },
    ]
}

/// Entries 85 to 112 of the signatures that the fetcher always includes.
pub open spec fn embedded_chunk_4() -> Seq<SigDef> {
    seq![
        SigDef { name: "WOFF2 font", mime: Some("font/woff2"), extension: Some(".woff2"), offset: 0, hex: "774F4632" },
        SigDef { name: "ISO 9660 CD", mime: Some("application/x-iso9660-image"), extension: Some(".iso"), offset: 32769, hex: "4344303031" },
        SigDef { name: "NTFS filesystem", mime: Some("application/x-ntfs"), extension: None, offset: 3, hex: "4E54465320202020" },
        SigDef { name: "ext2/3/4 filesystem", mime: Some("application/x-ext4"), extension: None, offset: 1080, hex: "53EF" },
        SigDef { name: "VHD disk image", mime: Some("application/x-vhd"), extension: Some(".vhd"), offset: 0, hex: "636F6E6563746978" },
        SigDef { name: "VHDX disk image", mime: Some("application/x-vhdx"), extension: Some(".vhdx"), offset: 0, hex: "7668647866696C65" },
        SigDef { name: "VMDK disk", mime: Some("application/x-vmdk"), extension: Some(".vmdk"), offset: 0, hex: "4B444D" },
        SigDef { name: "Apple DMG", mime: Some("application/x-apple-diskimage"), extension: Some(".dmg"), offset: 0, hex: "7801730D626260" },
        SigDef { name: "QEMU QCOW2", mime: Some("application/x-qcow2"), extension: Some(".qcow2"), offset: 0, hex: "514649FB" },
        SigDef { name: "SQLite3 database", mime: Some("application/x-sqlite3"), extension: Some(".sqlite"), offset: 0, hex: "53514C69746520666F726D6174203300" },
        SigDef { name: "SQLite3 WAL", mime: Some("application/x-sqlite3"), extension: Some(".sqlite-wal"), offset: 0, hex: "377F0682" },
        SigDef { name: "Java class file", mime: Some("application/java-vm"), extension: Some(".class"), offset: 0, hex: "CAFEBABE" },
        SigDef { name: "Dalvik DEX", mime: Some("application/x-dex"), extension: Some(".dex"), offset: 0, hex: "6465780A" },
        SigDef { name: "WebAssembly WASM", mime: Some("application/wasm"), extension: Some(".wasm"), offset: 0, hex: "0061736D" },
        SigDef { name: "Lua bytecode", mime: Some("application/x-lua-bytecode"), extension: Some(".luac"), offset: 0, hex: "1B4C7561" },
        SigDef { name: "Python bytecode 3.3+", mime: Some("application/x-python-bytecode"), extension: Some(".pyc"), offset: 0, hex: "42" },
        SigDef { name: "X.509 DER cert", mime: Some("application/pkix-cert"), extension: Some(".cer"), offset: 0, hex: "3082" },
        SigDef { name: "PKCS#12 PFX", mime: Some("application/x-pkcs12"), extension: Some(".pfx"), offset: 0, hex: "3084" },
        SigDef { name: "OpenPGP public key", mime: Some("application/pgp-keys"), extension: Some(".asc"), offset: 0, hex: "2D2D2D2D2D424547494E2050" },
        SigDef { name: "PCAP (LE)", mime: Some("application/vnd.tcpdump.pcap"), extension: Some(".pcap"), offset: 0, hex: "D4C3B2A1" },
        SigDef { name: "PCAP (BE)", mime: Some("application/vnd.tcpdump.pcap"), extension: Some(".pcap"), offset: 0, hex: "A1B2C3D4" },
        SigDef { name: "PCAPNG capture", mime: Some("application/vnd.tcpdump.pcap"), extension: Some(".pcapng"), offset: 0, hex: "0A0D0D0A" },
        SigDef { name: "Android boot img", mime: Some("application/x-android-boot"), extension: Some(".img"), offset: 0, hex: "414E44524F494421" },
        SigDef { name: "Windows LNK shortcut", mime: Some("application/x-ms-shortcut"), extension: Some(".lnk"), offset: 0, hex: "4C00000001140200" },
        SigDef { name: "Windows registry hive", mime: Some("application/x-ms-registry"), extension: None, offset: 0, hex: "72656766" },
        SigDef { name: "Windows EVTX log", mime: Some("application/x-ms-evtx"), extension: Some(".evtx"), offset: 0, hex: "456C6646696C65" },
        SigDef { name: "Windows Minidump", mime: Some("application/x-ms-minidump"), extension: Some(".dmp"), offset: 0, hex: "4D444D5093A7" },
        SigDef { name: "RPM package", mime: Some("application/x-rpm"), extension: Some(".rpm"), offset: 0, hex: "EDABEEDB" },
    ]
}

/// Entries 113 to 119 of the signatures that the fetcher always includes.
pub open spec fn embedded_chunk_5() -> Seq<SigDef> {
    seq![
        SigDef { name: "DEB package", mime: Some("application/vnd.debian.binary-package"), extension: Some(".deb"), offset: 0, hex: "213C617263683E" },
        SigDef { name: "MSI installer", mime: Some("application/x-msi"), extension: Some(".msi"), offset: 0, hex: "D0CF11E0A1B11AE1" },
        SigDef { name: "Nintendo NES ROM", mime: Some("application/x-nintendo-nes-rom"), extension: Some(".nes"), offset: 0, hex: "4E45531A" },
        SigDef { name: "Nintendo 64 ROM", mime: Some("application/x-nintendo-64-rom"), extension: Some(".z64"), offset: 0, hex: "80371240" },
        SigDef { name: "Nintendo DS ROM", mime: Some("application/x-nintendo-ds-rom"), extension: Some(".nds"), offset: 0, hex: "00010000" },
        SigDef { name: "Nintendo GBA ROM", mime: Some("application/x-nintendo-gba-rom"), extension: Some(".gba"), offset: 0, hex: "00008000" },
        SigDef { name: "Sega Genesis ROM", mime: Some("application/x-sega-genesis-rom"), extension: Some(".md"), offset: 0, hex: "00000800" },
    ]
}

/// The signatures that the fetcher always includes.
pub open spec fn embedded_list() -> Seq<SigDef> {
    embedded_chunk_1()
        + embedded_chunk_2()
        + embedded_chunk_3()
        + embedded_chunk_4()
        + embedded_chunk_5()
}

fn embedded_part_1(v: &mut Vec<SigDef>)
    requires
        all_ok(old(v)@),
    ensures
        final(v)@ == old(v)@ + embedded_chunk_1(),
        all_ok(final(v)@),
{
    proof {
        reveal_strlit("ZIP archive");
        reveal_strlit("504B0304");
        reveal_strlit(".zip");
    }
    def(v, "ZIP archive", Some("application/zip"), Some(".zip"), 0, "504B0304");
    proof {
        reveal_strlit("ZIP archive (empty)");
        reveal_strlit("504B0506");
        reveal_strlit(".zip");
    }
    def(v, "ZIP archive (empty)", Some("application/zip"), Some(".zip"), 0, "504B0506");
    proof {
        reveal_strlit("ZIP archive (spanned)");
        reveal_strlit("504B0708");
        reveal_strlit(".zip");
    }
    def(v, "ZIP archive (spanned)", Some("application/zip"), Some(".zip"), 0, "504B0708");
    proof {
        reveal_strlit("RAR archive v1.5");
        reveal_strlit("526172211A0700");
        reveal_strlit(".rar");
    }
    def(v, "RAR archive v1.5", Some("application/vnd.rar"), Some(".rar"), 0, "526172211A0700");
    proof {
        reveal_strlit("RAR archive v5");
        reveal_strlit("526172211A070100");
        reveal_strlit(".rar");
    }
    def(v, "RAR archive v5", Some("application/vnd.rar"), Some(".rar"), 0, "526172211A070100");
    proof {
        reveal_strlit("7-Zip archive");
        reveal_strlit("377ABCAF271C");
        reveal_strlit(".7z");
    }
    def(v, "7-Zip archive", Some("application/x-7z-compressed"), Some(".7z"), 0, "377ABCAF271C");
    proof {
        reveal_strlit("GZIP compressed");
        reveal_strlit("1F8B08");
        reveal_strlit(".gz");
    }
    def(v, "GZIP compressed", Some("application/gzip"), Some(".gz"), 0, "1F8B08");
    proof {
        reveal_strlit("BZIP2 compressed");
        reveal_strlit("425A68");
        reveal_strlit(".bz2");
    }
    def(v, "BZIP2 compressed", Some("application/x-bzip2"), Some(".bz2"), 0, "425A68");
    proof {
        reveal_strlit("XZ compressed");
        reveal_strlit("FD377A585A00");
        reveal_strlit(".xz");
    }
    def(v, "XZ compressed", Some("application/x-xz"), Some(".xz"), 0, "FD377A585A00");
    proof {
        reveal_strlit("TAR POSIX archive");
        reveal_strlit("757374617200");
        reveal_strlit(".tar");
    }
    def(v, "TAR POSIX archive", Some("application/x-tar"), Some(".tar"), 257, "757374617200");
    proof {
        reveal_strlit("LZ4 compressed");
        reveal_strlit("04224D18");
        reveal_strlit(".lz4");
    }
    def(v, "LZ4 compressed", Some("application/x-lz4"), Some(".lz4"), 0, "04224D18");
    proof {
        reveal_strlit("CAB archive");
        reveal_strlit("4D534346");
        reveal_strlit(".cab");
    }
    def(v, "CAB archive", Some("application/vnd.ms-cab-compressed"), Some(".cab"), 0, "4D534346");
    proof {
        reveal_strlit("ARJ archive");
        reveal_strlit("60EA");
        reveal_strlit(".arj");
    }
    def(v, "ARJ archive", Some("application/x-arj"), Some(".arj"), 0, "60EA");
    proof {
        reveal_strlit("Brotli compressed");
        reveal_strlit("CEB2CF81");
        reveal_strlit(".br");
    }
    def(v, "Brotli compressed", Some("application/brotli"), Some(".br"), 0, "CEB2CF81");
    proof {
        reveal_strlit("SquashFS");
        reveal_strlit("68737173");
        reveal_strlit(".squashfs");
    }
    def(v, "SquashFS", Some("application/x-squashfs"), Some(".squashfs"), 0, "68737173");
    proof {
        reveal_strlit("Zstandard");
        reveal_strlit("28B52FFD");
        reveal_strlit(".zst");
    }
    def(v, "Zstandard", Some("application/zstd"), Some(".zst"), 0, "28B52FFD");
    proof {
        reveal_strlit("PNG image");
        reveal_strlit("89504E470D0A1A0A");
        reveal_strlit(".png");
    }
    def(v, "PNG image", Some("image/png"), Some(".png"), 0, "89504E470D0A1A0A");
    proof {
        reveal_strlit("JPEG image");
        reveal_strlit("FFD8FF");
        reveal_strlit(".jpg");
    }
    def(v, "JPEG image", Some("image/jpeg"), Some(".jpg"), 0, "FFD8FF");
    proof {
        reveal_strlit("JPEG Exif");
        reveal_strlit("FFD8FFE1");
        reveal_strlit(".jpg");
    }
    def(v, "JPEG Exif", Some("image/jpeg"), Some(".jpg"), 0, "FFD8FFE1");
    proof {
        reveal_strlit("GIF89a");
        reveal_strlit("474946383961");
        reveal_strlit(".gif");
    }
    def(v, "GIF89a", Some("image/gif"), Some(".gif"), 0, "474946383961");
    proof {
        reveal_strlit("GIF87a");
        reveal_strlit("474946383761");
        reveal_strlit(".gif");
    }
    def(v, "GIF87a", Some("image/gif"), Some(".gif"), 0, "474946383761");
    proof {
        reveal_strlit("BMP image");
        reveal_strlit("424D");
        reveal_strlit(".bmp");
    }
    def(v, "BMP image", Some("image/bmp"), Some(".bmp"), 0, "424D");
    proof {
        reveal_strlit("WebP image");
        reveal_strlit("52494646");
        reveal_strlit(".webp");
    }
    def(v, "WebP image", Some("image/webp"), Some(".webp"), 0, "52494646");
    proof {
        reveal_strlit("TIFF little-endian");
        reveal_strlit("49492A00");
        reveal_strlit(".tiff");
    }
    def(v, "TIFF little-endian", Some("image/tiff"), Some(".tiff"), 0, "49492A00");
    proof {
        reveal_strlit("TIFF big-endian");
        reveal_strlit("4D4D002A");
        reveal_strlit(".tiff");
    }
    def(v, "TIFF big-endian", Some("image/tiff"), Some(".tiff"), 0, "4D4D002A");
    proof {
        reveal_strlit("ICO icon");
        reveal_strlit("00000100");
        reveal_strlit(".ico");
    }
    def(v, "ICO icon", Some("image/x-icon"), Some(".ico"), 0, "00000100");
    proof {
        reveal_strlit("Photoshop PSD");
        reveal_strlit("38425053");
        reveal_strlit(".psd");
    }
    def(v, "Photoshop PSD", Some("image/vnd.adobe.photoshop"), Some(".psd"), 0, "38425053");
    proof {
        reveal_strlit("GIMP XCF");
        reveal_strlit("67696D702078636620");
        reveal_strlit(".xcf");
    }
    def(v, "GIMP XCF", Some("image/x-xcf"), Some(".xcf"), 0, "67696D702078636620");
    assert(v@ =~= old(v)@ + embedded_chunk_1());
}

fn embedded_part_2(v: &mut Vec<SigDef>)
    requires
        all_ok(old(v)@),
    ensures
        final(v)@ == old(v)@ + embedded_chunk_2(),
        all_ok(final(v)@),
{
    proof {
        reveal_strlit("HEIC image");
        reveal_strlit("6674797068656963");
        reveal_strlit(".heic");
    }
    def(v, "HEIC image", Some("image/heif"), Some(".heic"), 4, "6674797068656963");
    proof {
        reveal_strlit("AVIF image");
        reveal_strlit("6674797061766966");
        reveal_strlit(".avif");
    }
    def(v, "AVIF image", Some("image/avif"), Some(".avif"), 4, "6674797061766966");
    proof {
        reveal_strlit("JPEG 2000 JP2");
        reveal_strlit("0000000C6A502020");
        reveal_strlit(".jp2");
    }
    def(v, "JPEG 2000 JP2", Some("image/jp2"), Some(".jp2"), 0, "0000000C6A502020");
    proof {
        reveal_strlit("OpenEXR image");
        reveal_strlit("762F3101");
        reveal_strlit(".exr");
    }
    def(v, "OpenEXR image", Some("image/x-exr"), Some(".exr"), 0, "762F3101");
    proof {
        reveal_strlit("KTX2 texture");
        reveal_strlit("AB4B5458203230");
        reveal_strlit(".ktx2");
    }
    def(v, "KTX2 texture", Some("image/ktx2"), Some(".ktx2"), 0, "AB4B5458203230");
    proof {
        reveal_strlit("DDS texture");
        reveal_strlit("44445320");
        reveal_strlit(".dds");
    }
    def(v, "DDS texture", Some("image/vnd.ms-dds"), Some(".dds"), 0, "44445320");
    proof {
        reveal_strlit("QOI image");
        reveal_strlit("716F6966");
        reveal_strlit(".qoi");
    }
    def(v, "QOI image", Some("image/qoi"), Some(".qoi"), 0, "716F6966");
    proof {
        reveal_strlit("Canon CR2 raw");
        reveal_strlit("49492A00100000004352");
        reveal_strlit(".cr2");
    }
    def(v, "Canon CR2 raw", Some("image/x-canon-cr2"), Some(".cr2"), 0, "49492A00100000004352");
    proof {
        reveal_strlit("Nikon NEF raw");
        reveal_strlit("4D4D002A");
        reveal_strlit(".nef");
    }
    def(v, "Nikon NEF raw", Some("image/x-nikon-nef"), Some(".nef"), 0, "4D4D002A");
    proof {
        reveal_strlit("Sony ARW raw");
        reveal_strlit("49492A00");
        reveal_strlit(".arw");
    }
    def(v, "Sony ARW raw", Some("image/x-sony-arw"), Some(".arw"), 0, "49492A00");
    proof {
        reveal_strlit("PE executable");
        reveal_strlit("4D5A");
        reveal_strlit(".exe");
    }
    def(v, "PE executable", Some("application/x-msdownload"), Some(".exe"), 0, "4D5A");
    proof {
        reveal_strlit("LE executable (OS/2)");
        reveal_strlit("4C45");
        reveal_strlit(".exe");
    }
    def(v, "LE executable (OS/2)", Some("application/x-msdownload"), Some(".exe"), 0, "4C45");
    proof {
        reveal_strlit("ELF 32-bit LSB");
        reveal_strlit("7F454C4601010100");
    }
    def(v, "ELF 32-bit LSB", Some("application/x-elf"), None, 0, "7F454C4601010100");
    proof {
        reveal_strlit("ELF 64-bit LSB");
        reveal_strlit("7F454C4602010100");
    }
    def(v, "ELF 64-bit LSB", Some("application/x-elf"), None, 0, "7F454C4602010100");
    proof {
        reveal_strlit("Mach-O 32-bit LE");
        reveal_strlit("FEEDFACE");
    }
    def(v, "Mach-O 32-bit LE", Some("application/x-mach-binary"), None, 0, "FEEDFACE");
    proof {
        reveal_strlit("Mach-O 64-bit LE");
        reveal_strlit("FEEDFACF");
    }
    def(v, "Mach-O 64-bit LE", Some("application/x-mach-binary"), None, 0, "FEEDFACF");
    proof {
        reveal_strlit("Mach-O Universal");
        reveal_strlit("CAFEBABE");
    }
    def(v, "Mach-O Universal", Some("application/x-mach-binary"), None, 0, "CAFEBABE");
    proof {
        reveal_strlit("COFF object (x86)");
        reveal_strlit("4C01");
        reveal_strlit(".o");
    }
    def(v, "COFF object (x86)", Some("application/x-coff"), Some(".o"), 0, "4C01");
    proof {
        reveal_strlit("PDF document");
        reveal_strlit("255044462D");
        reveal_strlit(".pdf");
    }
    def(v, "PDF document", Some("application/pdf"), Some(".pdf"), 0, "255044462D");
    proof {
        reveal_strlit("OLE2 Compound");
        reveal_strlit("D0CF11E0A1B11AE1");
        reveal_strlit(".doc");
    }
    def(v, "OLE2 Compound", Some("application/x-ole-storage"), Some(".doc"), 0, "D0CF11E0A1B11AE1");
    proof {
        reveal_strlit("RTF document");
        reveal_strlit("7B5C72746631");
        reveal_strlit(".rtf");
    }
    def(v, "RTF document", Some("application/rtf"), Some(".rtf"), 0, "7B5C72746631");
    proof {
        reveal_strlit("PostScript");
        reveal_strlit("25215053");
        reveal_strlit(".ps");
    }
    def(v, "PostScript", Some("application/postscript"), Some(".ps"), 0, "25215053");
    proof {
        reveal_strlit("DjVu document");
        reveal_strlit("41542654464F524D");
        reveal_strlit(".djvu");
    }
    def(v, "DjVu document", Some("image/vnd.djvu"), Some(".djvu"), 0, "41542654464F524D");
    proof {
        reveal_strlit("CHM help");
        reveal_strlit("49545346");
        reveal_strlit(".chm");
    }
    def(v, "CHM help", Some("application/x-chm"), Some(".chm"), 0, "49545346");
    proof {
        reveal_strlit("WAV audio");
        reveal_strlit("52494646");
        reveal_strlit(".wav");
    }
    def(v, "WAV audio", Some("audio/wav"), Some(".wav"), 0, "52494646");
    proof {
        reveal_strlit("MP3 ID3v2");
        reveal_strlit("494433");
        reveal_strlit(".mp3");
    }
    def(v, "MP3 ID3v2", Some("audio/mpeg"), Some(".mp3"), 0, "494433");
    proof {
        reveal_strlit("MP3 MPEG v1");
        reveal_strlit("FFFB");
        reveal_strlit(".mp3");
    }
    def(v, "MP3 MPEG v1", Some("audio/mpeg"), Some(".mp3"), 0, "FFFB");
    proof {
        reveal_strlit("FLAC audio");
        reveal_strlit("664C6143");
        reveal_strlit(".flac");
    }
    def(v, "FLAC audio", Some("audio/flac"), Some(".flac"), 0, "664C6143");
    assert(v@ =~= old(v)@ + embedded_chunk_2());
}

fn embedded_part_3(v: &mut Vec<SigDef>)
    requires
        all_ok(old(v)@),
    ensures
        final(v)@ == old(v)@ + embedded_chunk_3(),
        all_ok(final(v)@),
{
    proof {
        reveal_strlit("OGG audio");
        reveal_strlit("4F676753");
        reveal_strlit(".ogg");
    }
    def(v, "OGG audio", Some("audio/ogg"), Some(".ogg"), 0, "4F676753");
    proof {
        reveal_strlit("Opus audio");
        reveal_strlit("4F676753");
        reveal_strlit(".opus");
    }
    def(v, "Opus audio", Some("audio/opus"), Some(".opus"), 0, "4F676753");
    proof {
        reveal_strlit("MIDI audio");
        reveal_strlit("4D546864");
        reveal_strlit(".mid");
    }
    def(v, "MIDI audio", Some("audio/midi"), Some(".mid"), 0, "4D546864");
    proof {
        reveal_strlit("AIFF audio");
        reveal_strlit("464F524D");
        reveal_strlit(".aiff");
    }
    def(v, "AIFF audio", Some("audio/aiff"), Some(".aiff"), 0, "464F524D");
    proof {
        reveal_strlit("AAC");
        reveal_strlit("FFF1");
        reveal_strlit(".aac");
    }
    def(v, "AAC", Some("audio/aac"), Some(".aac"), 0, "FFF1");
    proof {
        reveal_strlit("AC-3 Dolby Digital");
        reveal_strlit("0B77");
        reveal_strlit(".ac3");
    }
    def(v, "AC-3 Dolby Digital", Some("audio/ac3"), Some(".ac3"), 0, "0B77");
    proof {
        reveal_strlit("WMA audio");
        reveal_strlit("3026B2758E66CF11");
        reveal_strlit(".wma");
    }
    def(v, "WMA audio", Some("audio/x-ms-wma"), Some(".wma"), 0, "3026B2758E66CF11");
    proof {
        reveal_strlit("Monkey's Audio");
        reveal_strlit("4D414320");
        reveal_strlit(".ape");
    }
    def(v, "Monkey's Audio", Some("audio/x-ape"), Some(".ape"), 0, "4D414320");
    proof {
        reveal_strlit("TrueAudio TTA");
        reveal_strlit("54544131");
        reveal_strlit(".tta");
    }
    def(v, "TrueAudio TTA", Some("audio/x-tta"), Some(".tta"), 0, "54544131");
    proof {
        reveal_strlit("AMR audio");
        reveal_strlit("2321414D52");
        reveal_strlit(".amr");
    }
    def(v, "AMR audio", Some("audio/amr"), Some(".amr"), 0, "2321414D52");
    proof {
        reveal_strlit("MP4 video");
        reveal_strlit("66747970");
        reveal_strlit(".mp4");
    }
    def(v, "MP4 video", Some("video/mp4"), Some(".mp4"), 4, "66747970");
    proof {
        reveal_strlit("QuickTime MOV");
        reveal_strlit("667479706D6F6F76");
        reveal_strlit(".mov");
    }
    def(v, "QuickTime MOV", Some("video/quicktime"), Some(".mov"), 4, "667479706D6F6F76");
    proof {
        reveal_strlit("AVI video");
        reveal_strlit("52494646");
        reveal_strlit(".avi");
    }
    def(v, "AVI video", Some("video/x-msvideo"), Some(".avi"), 0, "52494646");
    proof {
        reveal_strlit("Matroska MKV");
        reveal_strlit("1A45DFA3");
        reveal_strlit(".mkv");
    }
    def(v, "Matroska MKV", Some("video/x-matroska"), Some(".mkv"), 0, "1A45DFA3");
    proof {
        reveal_strlit("WebM video");
        reveal_strlit("1A45DFA3");
        reveal_strlit(".webm");
    }
    def(v, "WebM video", Some("video/webm"), Some(".webm"), 0, "1A45DFA3");
    proof {
        reveal_strlit("WMV video");
        reveal_strlit("3026B2758E66CF11");
        reveal_strlit(".wmv");
    }
    def(v, "WMV video", Some("video/x-ms-wmv"), Some(".wmv"), 0, "3026B2758E66CF11");
    proof {
        reveal_strlit("FLV video");
        reveal_strlit("464C5601");
        reveal_strlit(".flv");
    }
    def(v, "FLV video", Some("video/x-flv"), Some(".flv"), 0, "464C5601");
    proof {
        reveal_strlit("Flash SWF");
        reveal_strlit("465753");
        reveal_strlit(".swf");
    }
    def(v, "Flash SWF", Some("application/x-shockwave-flash"), Some(".swf"), 0, "465753");
    proof {
        reveal_strlit("MPEG-1 System");
        reveal_strlit("000001BA");
        reveal_strlit(".mpg");
    }
    def(v, "MPEG-1 System", Some("video/mpeg"), Some(".mpg"), 0, "000001BA");
    proof {
        reveal_strlit("MPEG-2 TS");
        reveal_strlit("47");
        reveal_strlit(".ts");
    }
    def(v, "MPEG-2 TS", Some("video/mp2t"), Some(".ts"), 0, "47");
    proof {
        reveal_strlit("3GPP video");
        reveal_strlit("66747970336770");
        reveal_strlit(".3gp");
    }
    def(v, "3GPP video", Some("video/3gpp"), Some(".3gp"), 4, "66747970336770");
    proof {
        reveal_strlit("Bink video");
        reveal_strlit("42494B");
        reveal_strlit(".bik");
    }
    def(v, "Bink video", Some("video/x-bink"), Some(".bik"), 0, "42494B");
    proof {
        reveal_strlit("DV video");
        reveal_strlit("1F0700");
        reveal_strlit(".dv");
    }
    def(v, "DV video", Some("video/x-dv"), Some(".dv"), 0, "1F0700");
    proof {
        reveal_strlit("H.264 NAL");
        reveal_strlit("00000001");
        reveal_strlit(".h264");
    }
    def(v, "H.264 NAL", Some("video/h264"), Some(".h264"), 0, "00000001");
    proof {
        reveal_strlit("HEVC/H.265 NAL");
        reveal_strlit("00000001");
        reveal_strlit(".h265");
    }
    def(v, "HEVC/H.265 NAL", Some("video/hevc"), Some(".h265"), 0, "00000001");
    proof {
        reveal_strlit("TrueType font");
        reveal_strlit("0001000000");
        reveal_strlit(".ttf");
    }
    def(v, "TrueType font", Some("font/ttf"), Some(".ttf"), 0, "0001000000");
    proof {
        reveal_strlit("OpenType font");
        reveal_strlit("4F54544F");
        reveal_strlit(".otf");
    }
    def(v, "OpenType font", Some("font/otf"), Some(".otf"), 0, "4F54544F");
    proof {
        reveal_strlit("WOFF font");
        reveal_strlit("774F4646");
        reveal_strlit(".woff");
    }
    def(v, "WOFF font", Some("font/woff"), Some(".woff"), 0, "774F4646");
    assert(v@ =~= old(v)@ + embedded_chunk_3());
}

fn embedded_part_4(v: &mut Vec<SigDef>)
    requires
        all_ok(old(v)@),
    ensures
        final(v)@ == old(v)@ + embedded_chunk_4(),
        all_ok(final(v)@),
{
    proof {
        reveal_strlit("WOFF2 font");
        reveal_strlit("774F4632");
        reveal_strlit(".woff2");
    }
    def(v, "WOFF2 font", Some("font/woff2"), Some(".woff2"), 0, "774F4632");
    proof {
        reveal_strlit("ISO 9660 CD");
        reveal_strlit("4344303031");
        reveal_strlit(".iso");
    }
    def(v, "ISO 9660 CD", Some("application/x-iso9660-image"), Some(".iso"), 32769, "4344303031");
    proof {
        reveal_strlit("NTFS filesystem");
        reveal_strlit("4E54465320202020");
    }
    def(v, "NTFS filesystem", Some("application/x-ntfs"), None, 3, "4E54465320202020");
    proof {
        reveal_strlit("ext2/3/4 filesystem");
        reveal_strlit("53EF");
    }
    def(v, "ext2/3/4 filesystem", Some("application/x-ext4"), None, 1080, "53EF");
    proof {
        reveal_strlit("VHD disk image");
        reveal_strlit("636F6E6563746978");
        reveal_strlit(".vhd");
    }
    def(v, "VHD disk image", Some("application/x-vhd"), Some(".vhd"), 0, "636F6E6563746978");
    proof {
        reveal_strlit("VHDX disk image");
        reveal_strlit("7668647866696C65");
        reveal_strlit(".vhdx");
    }
    def(v, "VHDX disk image", Some("application/x-vhdx"), Some(".vhdx"), 0, "7668647866696C65");
    proof {
        reveal_strlit("VMDK disk");
        reveal_strlit("4B444D");
        reveal_strlit(".vmdk");
    }
    def(v, "VMDK disk", Some("application/x-vmdk"), Some(".vmdk"), 0, "4B444D");
    proof {
        reveal_strlit("Apple DMG");
        reveal_strlit("7801730D626260");
        reveal_strlit(".dmg");
    }
    def(v, "Apple DMG", Some("application/x-apple-diskimage"), Some(".dmg"), 0, "7801730D626260");
    proof {
        reveal_strlit("QEMU QCOW2");
        reveal_strlit("514649FB");
        reveal_strlit(".qcow2");
    }
    def(v, "QEMU QCOW2", Some("application/x-qcow2"), Some(".qcow2"), 0, "514649FB");
    proof {
        reveal_strlit("SQLite3 database");
        reveal_strlit("53514C69746520666F726D6174203300");
        reveal_strlit(".sqlite");
    }
    def(v, "SQLite3 database", Some("application/x-sqlite3"), Some(".sqlite"), 0, "53514C69746520666F726D6174203300");
    proof {
        reveal_strlit("SQLite3 WAL");
        reveal_strlit("377F0682");
        reveal_strlit(".sqlite-wal");
    }
    def(v, "SQLite3 WAL", Some("application/x-sqlite3"), Some(".sqlite-wal"), 0, "377F0682");
    proof {
        reveal_strlit("Java class file");
        reveal_strlit("CAFEBABE");
        reveal_strlit(".class");
    }
    def(v, "Java class file", Some("application/java-vm"), Some(".class"), 0, "CAFEBABE");
    proof {
        reveal_strlit("Dalvik DEX");
        reveal_strlit("6465780A");
        reveal_strlit(".dex");
    }
    def(v, "Dalvik DEX", Some("application/x-dex"), Some(".dex"), 0, "6465780A");
    proof {
        reveal_strlit("WebAssembly WASM");
        reveal_strlit("0061736D");
        reveal_strlit(".wasm");
    }
    def(v, "WebAssembly WASM", Some("application/wasm"), Some(".wasm"), 0, "0061736D");
    proof {
        reveal_strlit("Lua bytecode");
        reveal_strlit("1B4C7561");
        reveal_strlit(".luac");
    }
    def(v, "Lua bytecode", Some("application/x-lua-bytecode"), Some(".luac"), 0, "1B4C7561");
    proof {
        reveal_strlit("Python bytecode 3.3+");
        reveal_strlit("42");
        reveal_strlit(".pyc");
    }
    def(v, "Python bytecode 3.3+", Some("application/x-python-bytecode"), Some(".pyc"), 0, "42");
    proof {
        reveal_strlit("X.509 DER cert");
        reveal_strlit("3082");
        reveal_strlit(".cer");
    }
    def(v, "X.509 DER cert", Some("application/pkix-cert"), Some(".cer"), 0, "3082");
    proof {
        reveal_strlit("PKCS#12 PFX");
        reveal_strlit("3084");
        reveal_strlit(".pfx");
    }
    def(v, "PKCS#12 PFX", Some("application/x-pkcs12"), Some(".pfx"), 0, "3084");
    proof {
        reveal_strlit("OpenPGP public key");
        reveal_strlit("2D2D2D2D2D424547494E2050");
        reveal_strlit(".asc");
    }
    def(v, "OpenPGP public key", Some("application/pgp-keys"), Some(".asc"), 0, "2D2D2D2D2D424547494E2050");
    proof {
        reveal_strlit("PCAP (LE)");
        reveal_strlit("D4C3B2A1");
        reveal_strlit(".pcap");
    }
    def(v, "PCAP (LE)", Some("application/vnd.tcpdump.pcap"), Some(".pcap"), 0, "D4C3B2A1");
    proof {
        reveal_strlit("PCAP (BE)");
        reveal_strlit("A1B2C3D4");
        reveal_strlit(".pcap");
    }
    def(v, "PCAP (BE)", Some("application/vnd.tcpdump.pcap"), Some(".pcap"), 0, "A1B2C3D4");
    proof {
        reveal_strlit("PCAPNG capture");
        reveal_strlit("0A0D0D0A");
        reveal_strlit(".pcapng");
    }
    def(v, "PCAPNG capture", Some("application/vnd.tcpdump.pcap"), Some(".pcapng"), 0, "0A0D0D0A");
    proof {
        reveal_strlit("Android boot img");
        reveal_strlit("414E44524F494421");
        reveal_strlit(".img");
    }
    def(v, "Android boot img", Some("application/x-android-boot"), Some(".img"), 0, "414E44524F494421");
    proof {
        reveal_strlit("Windows LNK shortcut");
        reveal_strlit("4C00000001140200");
        reveal_strlit(".lnk");
    }
    def(v, "Windows LNK shortcut", Some("application/x-ms-shortcut"), Some(".lnk"), 0, "4C00000001140200");
    proof {
        reveal_strlit("Windows registry hive");
        reveal_strlit("72656766");
    }
    def(v, "Windows registry hive", Some("application/x-ms-registry"), None, 0, "72656766");
    proof {
        reveal_strlit("Windows EVTX log");
        reveal_strlit("456C6646696C65");
        reveal_strlit(".evtx");
    }
    def(v, "Windows EVTX log", Some("application/x-ms-evtx"), Some(".evtx"), 0, "456C6646696C65");
    proof {
        reveal_strlit("Windows Minidump");
        reveal_strlit("4D444D5093A7");
        reveal_strlit(".dmp");
    }
    def(v, "Windows Minidump", Some("application/x-ms-minidump"), Some(".dmp"), 0, "4D444D5093A7");
    proof {
        reveal_strlit("RPM package");
        reveal_strlit("EDABEEDB");
        reveal_strlit(".rpm");
    }
    def(v, "RPM package", Some("application/x-rpm"), Some(".rpm"), 0, "EDABEEDB");
    assert(v@ =~= old(v)@ + embedded_chunk_4());
}

fn embedded_part_5(v: &mut Vec<SigDef>)
    requires
        all_ok(old(v)@),
    ensures
        final(v)@ == old(v)@ + embedded_chunk_5(),
        all_ok(final(v)@),
{
    proof {
        reveal_strlit("DEB package");
        reveal_strlit("213C617263683E");
        reveal_strlit(".deb");
    }
    def(v, "DEB package", Some("application/vnd.debian.binary-package"), Some(".deb"), 0, "213C617263683E");
    proof {
        reveal_strlit("MSI installer");
        reveal_strlit("D0CF11E0A1B11AE1");
        reveal_strlit(".msi");
    }
    def(v, "MSI installer", Some("application/x-msi"), Some(".msi"), 0, "D0CF11E0A1B11AE1");
    proof {
        reveal_strlit("Nintendo NES ROM");
        reveal_strlit("4E45531A");
        reveal_strlit(".nes");
    }
    def(v, "Nintendo NES ROM", Some("application/x-nintendo-nes-rom"), Some(".nes"), 0, "4E45531A");
    proof {
        reveal_strlit("Nintendo 64 ROM");
        reveal_strlit("80371240");
        reveal_strlit(".z64");
    }
    def(v, "Nintendo 64 ROM", Some("application/x-nintendo-64-rom"), Some(".z64"), 0, "80371240");
    proof {
        reveal_strlit("Nintendo DS ROM");
        reveal_strlit("00010000");
        reveal_strlit(".nds");
    }
    def(v, "Nintendo DS ROM", Some("application/x-nintendo-ds-rom"), Some(".nds"), 0, "00010000");
    proof {
        reveal_strlit("Nintendo GBA ROM");
        reveal_strlit("00008000");
        reveal_strlit(".gba");
    }
    def(v, "Nintendo GBA ROM", Some("application/x-nintendo-gba-rom"), Some(".gba"), 0, "00008000");
    proof {
        reveal_strlit("Sega Genesis ROM");
        reveal_strlit("00000800");
        reveal_strlit(".md");
    }
    def(v, "Sega Genesis ROM", Some("application/x-sega-genesis-rom"), Some(".md"), 0, "00000800");
    assert(v@ =~= old(v)@ + embedded_chunk_5());
}

/// The signature list that the fetcher always includes next to what it
/// downloads.
pub fn generate_embedded_sigs() -> (res: Vec<SigDef>)
    ensures
        res@ == embedded_list(),
        res@.len() == 119,
        all_ok(res@),
{
    let mut v: Vec<SigDef> = Vec::new();
    embedded_part_1(&mut v);
    embedded_part_2(&mut v);
    embedded_part_3(&mut v);
    embedded_part_4(&mut v);
    embedded_part_5(&mut v);
    assert(v@ =~= embedded_list());
    v
}

/// The insertion that seeds a built-in signature: source "seed", priority
/// 10, one big-endian pattern without mask.
pub open spec fn is_seed_record(r: NewSignature, d: SigDef) -> bool {
    &&& r.name@ == d.name@
    &&& opt_view(r.mime) == opt_str_view(d.mime)
    &&& opt_view(r.extension) == opt_str_view(d.extension)
    &&& opt_view(r.source) == Some("seed"@)
    &&& r.priority == 10
    &&& r.patterns@.len() == 1
    &&& r.patterns@[0]@ == (PatternView { offset: d.offset, hex_bytes: d.hex@, mask: None, endianness: "big"@ })
}

fn owned_str(o: Option<&'static str>) -> (res: Option<String>)
    ensures
        opt_view(res) == opt_str_view(o),
{
    match o {
        Some(s) => Some(String::from_str(s)),
        None => None,
    }
}

/// The insertion for one built-in signature.
pub fn seed_record(d: &SigDef) -> (res: NewSignature)
    ensures
        is_seed_record(res, *d),
{
    let mut patterns: Vec<MagicPattern> = Vec::new();
    patterns.push(
        MagicPattern {
            offset: d.offset,
            hex_bytes: String::from_str(d.hex),
            mask: None,
            endianness: String::from_str("big"),
        },
    );
    NewSignature {
        name: String::from_str(d.name),
        mime: owned_str(d.mime),
        extension: owned_str(d.extension),
        source: Some(String::from_str("seed")),
        priority: 10,
        patterns,
    }
}

/// The insertions that seeding the database with `defs` makes, one per
/// signature, in order.
pub fn seed_records(defs: &Vec<SigDef>) -> (res: Vec<NewSignature>)
    ensures
        res@.len() == defs@.len(),
        forall|i: int| 0 <= i < defs@.len() ==> #[trigger] is_seed_record(res@[i], defs@[i]),
{
    let mut out: Vec<NewSignature> = Vec::new();
    for i in 0..defs.len()
        invariant
            out@.len() == i,
            forall|j: int| 0 <= j < i ==> #[trigger] is_seed_record(out@[j], defs@[j]),
    {
        out.push(seed_record(&defs[i]));
    }
    out
}

/// The row that a loaded table holds for a signature inserted with one
/// pattern.
pub open spec fn is_row_of(row: PatternRow, r: NewSignature) -> bool {
    &&& row.name@ == r.name@
    &&& opt_view(row.mime) == opt_view(r.mime)
    &&& opt_view(row.extension) == opt_view(r.extension)
    &&& row.priority == r.priority
    &&& row_pattern(row) == r.patterns@[0]@
}

/// A table that holds one row for each seeding insertion, under distinct
/// ids, finds every built-in signature by its pattern text at its offset:
/// the lookup lists a signature with that signature's name, MIME type and
/// extension.
pub proof fn lemma_seeded_table_finds_seeds(defs: Seq<SigDef>, records: Seq<NewSignature>, rows: Seq<PatternRow>, i: int)
    requires
        all_ok(defs),
        records.len() == defs.len(),
        rows.len() == defs.len(),
        forall|j: int| 0 <= j < defs.len() ==> #[trigger] is_seed_record(records[j], defs[j]),
        forall|j: int| 0 <= j < rows.len() ==> #[trigger] is_row_of(rows[j], records[j]),
        forall|a: int, b: int| 0 <= a < b < rows.len() ==> rows[a].sig_id != rows[b].sig_id,
        0 <= i < defs.len(),
    ensures
        exists|k: int|
            0 <= k < spec_match(rows, defs[i].offset as u64, defs[i].hex@).len() && {
                let s = #[trigger] spec_match(rows, defs[i].offset as u64, defs[i].hex@)[k];
                &&& s.name == defs[i].name@
                &&& s.mime == opt_str_view(defs[i].mime)
                &&& s.extension == opt_str_view(defs[i].extension)
            },
{
    let d = defs[i];
    let offset = d.offset as u64;
    assert(sig_def_ok(defs[i]));
    assert(is_seed_record(records[i], d));
    assert(is_row_of(rows[i], records[i]));
    assert(row_hit(rows[i], offset, d.hex@));
    lemma_select_rows(rows, offset, d.hex@);
    lemma_select_distinct(rows, offset, d.hex@);
    let sel = select_rows(rows, offset, d.hex@);
    lemma_group_distinct_rows(sel);
    let k = choose|k: int| 0 <= k < sel.len() && sel[k] == rows[i];
    assert(spec_match(rows, offset, d.hex@)[k].name == d.name@);
}

/// Two built-in entries describe the same signature: same name, extension,
/// offset and pattern text.
pub open spec fn same_signature(a: SigDef, b: SigDef) -> bool {
    &&& a.name == b.name
    &&& a.extension == b.extension
    &&& a.offset == b.offset
    &&& a.hex == b.hex
}

/// Position `(i, j)` names entry `i` of the embedded list and entry `j` of
/// the seed list, and both describe the same signature.
pub open spec fn agrees_at(pos: (int, int)) -> bool {
    &&& 0 <= pos.0 < embedded_list().len()
    &&& 0 <= pos.1 < seed_list().len()
    &&& same_signature(embedded_list()[pos.0], seed_list()[pos.1])
}

/// Shared positions, part 1.
pub open spec fn shared_group_1() -> Seq<(int, int)> {
    seq![(0, 0), (3, 3), (4, 4), (5, 5), (6, 6), (7, 7), (8, 8), (9, 9), (10, 12), (11, 13), (12, 15), (13, 19), (16, 28), (17, 29)]
}

/// Shared positions, part 2.
pub open spec fn shared_group_2() -> Seq<(int, int)> {
    seq![(18, 30), (19, 33), (20, 32), (21, 34), (23, 36), (24, 37), (25, 38), (26, 40), (27, 41), (30, 45), (32, 54), (33, 44), (34, 53), (35, 55)]
}

/// Shared positions, part 3.
pub open spec fn shared_group_3() -> Seq<(int, int)> {
    seq![(36, 56), (37, 58), (38, 60), (39, 62), (40, 64), (41, 65), (42, 68), (43, 69), (44, 72), (46, 76), (48, 78), (49, 79), (50, 80), (52, 93)]
}

/// Shared positions, part 4.
pub open spec fn shared_group_4() -> Seq<(int, int)> {
    seq![(53, 94), (54, 95), (55, 97), (56, 98), (57, 99), (58, 101), (59, 102), (61, 105), (64, 110), (65, 111), (67, 117), (68, 118), (69, 119), (70, 120)]
}

/// Shared positions, part 5.
pub open spec fn shared_group_5() -> Seq<(int, int)> {
    seq![(72, 122), (73, 123), (75, 126), (76, 127), (77, 128), (78, 131), (80, 134), (81, 136), (82, 137), (83, 138), (84, 139), (86, 145), (88, 149), (89, 150)]
}

/// Shared positions, part 6.
pub open spec fn shared_group_6() -> Seq<(int, int)> {
    seq![(90, 151), (91, 152), (92, 153), (93, 156), (94, 157), (95, 166), (96, 167), (97, 168), (99, 170), (100, 172), (101, 173), (102, 174), (103, 181), (104, 182)]
}

/// Shared positions, part 7.
pub open spec fn shared_group_7() -> Seq<(int, int)> {
    seq![(105, 183), (106, 185), (107, 200), (108, 201), (109, 202), (110, 203), (111, 204), (112, 205), (113, 206), (114, 194), (115, 195), (116, 196), (117, 197), (118, 198)]
}

/// The positions `(i, j)` at which the fetcher's embedded list and the seed
/// list hold a signature of the same name.
pub open spec fn shared_positions() -> Seq<(int, int)> {
    shared_group_1()
        + shared_group_2()
        + shared_group_3()
        + shared_group_4()
        + shared_group_5()
        + shared_group_6()
        + shared_group_7()
}

proof fn lemma_shared_group_1()
    ensures
        forall|q: int| 0 <= q < shared_group_1().len() ==> agrees_at(#[trigger] shared_group_1()[q]),
{
    assert(embedded_list()[0] == embedded_chunk_1()[0]);
    assert(seed_list()[0] == seed_chunk_1()[0]);
    assert(agrees_at((0int, 0int)));
    assert(embedded_list()[3] == embedded_chunk_1()[3]);
    assert(seed_list()[3] == seed_chunk_1()[3]);
    assert(agrees_at((3int, 3int)));
    assert(embedded_list()[4] == embedded_chunk_1()[4]);
    assert(seed_list()[4] == seed_chunk_1()[4]);
    assert(agrees_at((4int, 4int)));
    assert(embedded_list()[5] == embedded_chunk_1()[5]);
    assert(seed_list()[5] == seed_chunk_1()[5]);
    assert(agrees_at((5int, 5int)));
    assert(embedded_list()[6] == embedded_chunk_1()[6]);
    assert(seed_list()[6] == seed_chunk_1()[6]);
    assert(agrees_at((6int, 6int)));
    assert(embedded_list()[7] == embedded_chunk_1()[7]);
    assert(seed_list()[7] == seed_chunk_1()[7]);
    assert(agrees_at((7int, 7int)));
    assert(embedded_list()[8] == embedded_chunk_1()[8]);
    assert(seed_list()[8] == seed_chunk_1()[8]);
    assert(agrees_at((8int, 8int)));
    assert(embedded_list()[9] == embedded_chunk_1()[9]);
    assert(seed_list()[9] == seed_chunk_1()[9]);
    assert(agrees_at((9int, 9int)));
    assert(embedded_list()[10] == embedded_chunk_1()[10]);
    assert(seed_list()[12] == seed_chunk_1()[12]);
    assert(agrees_at((10int, 12int)));
    assert(embedded_list()[11] == embedded_chunk_1()[11]);
    assert(seed_list()[13] == seed_chunk_1()[13]);
    assert(agrees_at((11int, 13int)));
    assert(embedded_list()[12] == embedded_chunk_1()[12]);
    assert(seed_list()[15] == seed_chunk_1()[15]);
    assert(agrees_at((12int, 15int)));
    assert(embedded_list()[13] == embedded_chunk_1()[13]);
    assert(seed_list()[19] == seed_chunk_1()[19]);
    assert(agrees_at((13int, 19int)));
    assert(embedded_list()[16] == embedded_chunk_1()[16]);
    assert(seed_list()[28] == seed_chunk_2()[0]);
    assert(agrees_at((16int, 28int)));
    assert(embedded_list()[17] == embedded_chunk_1()[17]);
    assert(seed_list()[29] == seed_chunk_2()[1]);
    assert(agrees_at((17int, 29int)));
    assert forall|q: int| 0 <= q < shared_group_1().len() implies agrees_at(#[trigger] shared_group_1()[q]) by {
        if q == 0 {
            assert(shared_group_1()[0] == (0int, 0int));
        }         else if q == 1 {
            assert(shared_group_1()[1] == (3int, 3int));
        }         else if q == 2 {
            assert(shared_group_1()[2] == (4int, 4int));
        }         else if q == 3 {
            assert(shared_group_1()[3] == (5int, 5int));
        }         else if q == 4 {
            assert(shared_group_1()[4] == (6int, 6int));
        }         else if q == 5 {
            assert(shared_group_1()[5] == (7int, 7int));
        }         else if q == 6 {
            assert(shared_group_1()[6] == (8int, 8int));
        }         else if q == 7 {
            assert(shared_group_1()[7] == (9int, 9int));
        }         else if q == 8 {
            assert(shared_group_1()[8] == (10int, 12int));
        }         else if q == 9 {
            assert(shared_group_1()[9] == (11int, 13int));
        }         else if q == 10 {
            assert(shared_group_1()[10] == (12int, 15int));
        }         else if q == 11 {
            assert(shared_group_1()[11] == (13int, 19int));
        }         else if q == 12 {
            assert(shared_group_1()[12] == (16int, 28int));
        }         else if q == 13 {
            assert(shared_group_1()[13] == (17int, 29int));
        }
    }
}

proof fn lemma_shared_group_2()
    ensures
        forall|q: int| 0 <= q < shared_group_2().len() ==> agrees_at(#[trigger] shared_group_2()[q]),
{
    assert(embedded_list()[18] == embedded_chunk_1()[18]);
    assert(seed_list()[30] == seed_chunk_2()[2]);
    assert(agrees_at((18int, 30int)));
    assert(embedded_list()[19] == embedded_chunk_1()[19]);
    assert(seed_list()[33] == seed_chunk_2()[5]);
    assert(agrees_at((19int, 33int)));
    assert(embedded_list()[20] == embedded_chunk_1()[20]);
    assert(seed_list()[32] == seed_chunk_2()[4]);
    assert(agrees_at((20int, 32int)));
    assert(embedded_list()[21] == embedded_chunk_1()[21]);
    assert(seed_list()[34] == seed_chunk_2()[6]);
    assert(agrees_at((21int, 34int)));
    assert(embedded_list()[23] == embedded_chunk_1()[23]);
    assert(seed_list()[36] == seed_chunk_2()[8]);
    assert(agrees_at((23int, 36int)));
    assert(embedded_list()[24] == embedded_chunk_1()[24]);
    assert(seed_list()[37] == seed_chunk_2()[9]);
    assert(agrees_at((24int, 37int)));
    assert(embedded_list()[25] == embedded_chunk_1()[25]);
    assert(seed_list()[38] == seed_chunk_2()[10]);
    assert(agrees_at((25int, 38int)));
    assert(embedded_list()[26] == embedded_chunk_1()[26]);
    assert(seed_list()[40] == seed_chunk_2()[12]);
    assert(agrees_at((26int, 40int)));
    assert(embedded_list()[27] == embedded_chunk_1()[27]);
    assert(seed_list()[41] == seed_chunk_2()[13]);
    assert(agrees_at((27int, 41int)));
    assert(embedded_list()[30] == embedded_chunk_2()[2]);
    assert(seed_list()[45] == seed_chunk_2()[17]);
    assert(agrees_at((30int, 45int)));
    assert(embedded_list()[32] == embedded_chunk_2()[4]);
    assert(seed_list()[54] == seed_chunk_2()[26]);
    assert(agrees_at((32int, 54int)));
    assert(embedded_list()[33] == embedded_chunk_2()[5]);
    assert(seed_list()[44] == seed_chunk_2()[16]);
    assert(agrees_at((33int, 44int)));
    assert(embedded_list()[34] == embedded_chunk_2()[6]);
    assert(seed_list()[53] == seed_chunk_2()[25]);
    assert(agrees_at((34int, 53int)));
    assert(embedded_list()[35] == embedded_chunk_2()[7]);
    assert(seed_list()[55] == seed_chunk_2()[27]);
    assert(agrees_at((35int, 55int)));
    assert forall|q: int| 0 <= q < shared_group_2().len() implies agrees_at(#[trigger] shared_group_2()[q]) by {
        if q == 0 {
            assert(shared_group_2()[0] == (18int, 30int));
        }         else if q == 1 {
            assert(shared_group_2()[1] == (19int, 33int));
        }         else if q == 2 {
            assert(shared_group_2()[2] == (20int, 32int));
        }         else if q == 3 {
            assert(shared_group_2()[3] == (21int, 34int));
        }         else if q == 4 {
            assert(shared_group_2()[4] == (23int, 36int));
        }         else if q == 5 {
            assert(shared_group_2()[5] == (24int, 37int));
        }         else if q == 6 {
            assert(shared_group_2()[6] == (25int, 38int));
        }         else if q == 7 {
            assert(shared_group_2()[7] == (26int, 40int));
        }         else if q == 8 {
            assert(shared_group_2()[8] == (27int, 41int));
        }         else if q == 9 {
            assert(shared_group_2()[9] == (30int, 45int));
        }         else if q == 10 {
            assert(shared_group_2()[10] == (32int, 54int));
        }         else if q == 11 {
            assert(shared_group_2()[11] == (33int, 44int));
        }         else if q == 12 {
            assert(shared_group_2()[12] == (34int, 53int));
        }         else if q == 13 {
            assert(shared_group_2()[13] == (35int, 55int));
        }
    }
}

proof fn lemma_shared_group_3()
    ensures
        forall|q: int| 0 <= q < shared_group_3().len() ==> agrees_at(#[trigger] shared_group_3()[q]),
{
    assert(embedded_list()[36] == embedded_chunk_2()[8]);
    assert(seed_list()[56] == seed_chunk_3()[0]);
    assert(agrees_at((36int, 56int)));
    assert(embedded_list()[37] == embedded_chunk_2()[9]);
    assert(seed_list()[58] == seed_chunk_3()[2]);
    assert(agrees_at((37int, 58int)));
    assert(embedded_list()[38] == embedded_chunk_2()[10]);
    assert(seed_list()[60] == seed_chunk_3()[4]);
    assert(agrees_at((38int, 60int)));
    assert(embedded_list()[39] == embedded_chunk_2()[11]);
    assert(seed_list()[62] == seed_chunk_3()[6]);
    assert(agrees_at((39int, 62int)));
    assert(embedded_list()[40] == embedded_chunk_2()[12]);
    assert(seed_list()[64] == seed_chunk_3()[8]);
    assert(agrees_at((40int, 64int)));
    assert(embedded_list()[41] == embedded_chunk_2()[13]);
    assert(seed_list()[65] == seed_chunk_3()[9]);
    assert(agrees_at((41int, 65int)));
    assert(embedded_list()[42] == embedded_chunk_2()[14]);
    assert(seed_list()[68] == seed_chunk_3()[12]);
    assert(agrees_at((42int, 68int)));
    assert(embedded_list()[43] == embedded_chunk_2()[15]);
    assert(seed_list()[69] == seed_chunk_3()[13]);
    assert(agrees_at((43int, 69int)));
    assert(embedded_list()[44] == embedded_chunk_2()[16]);
    assert(seed_list()[72] == seed_chunk_3()[16]);
    assert(agrees_at((44int, 72int)));
    assert(embedded_list()[46] == embedded_chunk_2()[18]);
    assert(seed_list()[76] == seed_chunk_3()[20]);
    assert(agrees_at((46int, 76int)));
    assert(embedded_list()[48] == embedded_chunk_2()[20]);
    assert(seed_list()[78] == seed_chunk_3()[22]);
    assert(agrees_at((48int, 78int)));
    assert(embedded_list()[49] == embedded_chunk_2()[21]);
    assert(seed_list()[79] == seed_chunk_3()[23]);
    assert(agrees_at((49int, 79int)));
    assert(embedded_list()[50] == embedded_chunk_2()[22]);
    assert(seed_list()[80] == seed_chunk_3()[24]);
    assert(agrees_at((50int, 80int)));
    assert(embedded_list()[52] == embedded_chunk_2()[24]);
    assert(seed_list()[93] == seed_chunk_4()[9]);
    assert(agrees_at((52int, 93int)));
    assert forall|q: int| 0 <= q < shared_group_3().len() implies agrees_at(#[trigger] shared_group_3()[q]) by {
        if q == 0 {
            assert(shared_group_3()[0] == (36int, 56int));
        }         else if q == 1 {
            assert(shared_group_3()[1] == (37int, 58int));
        }         else if q == 2 {
            assert(shared_group_3()[2] == (38int, 60int));
        }         else if q == 3 {
            assert(shared_group_3()[3] == (39int, 62int));
        }         else if q == 4 {
            assert(shared_group_3()[4] == (40int, 64int));
        }         else if q == 5 {
            assert(shared_group_3()[5] == (41int, 65int));
        }         else if q == 6 {
            assert(shared_group_3()[6] == (42int, 68int));
        }         else if q == 7 {
            assert(shared_group_3()[7] == (43int, 69int));
        }         else if q == 8 {
            assert(shared_group_3()[8] == (44int, 72int));
        }         else if q == 9 {
            assert(shared_group_3()[9] == (46int, 76int));
        }         else if q == 10 {
            assert(shared_group_3()[10] == (48int, 78int));
        }         else if q == 11 {
            assert(shared_group_3()[11] == (49int, 79int));
        }         else if q == 12 {
            assert(shared_group_3()[12] == (50int, 80int));
        }         else if q == 13 {
            assert(shared_group_3()[13] == (52int, 93int));
        }
    }
}

proof fn lemma_shared_group_4()
    ensures
        forall|q: int| 0 <= q < shared_group_4().len() ==> agrees_at(#[trigger] shared_group_4()[q]),
{
    assert(embedded_list()[53] == embedded_chunk_2()[25]);
    assert(seed_list()[94] == seed_chunk_4()[10]);
    assert(agrees_at((53int, 94int)));
    assert(embedded_list()[54] == embedded_chunk_2()[26]);
    assert(seed_list()[95] == seed_chunk_4()[11]);
    assert(agrees_at((54int, 95int)));
    assert(embedded_list()[55] == embedded_chunk_2()[27]);
    assert(seed_list()[97] == seed_chunk_4()[13]);
    assert(agrees_at((55int, 97int)));
    assert(embedded_list()[56] == embedded_chunk_3()[0]);
    assert(seed_list()[98] == seed_chunk_4()[14]);
    assert(agrees_at((56int, 98int)));
    assert(embedded_list()[57] == embedded_chunk_3()[1]);
    assert(seed_list()[99] == seed_chunk_4()[15]);
    assert(agrees_at((57int, 99int)));
    assert(embedded_list()[58] == embedded_chunk_3()[2]);
    assert(seed_list()[101] == seed_chunk_4()[17]);
    assert(agrees_at((58int, 101int)));
    assert(embedded_list()[59] == embedded_chunk_3()[3]);
    assert(seed_list()[102] == seed_chunk_4()[18]);
    assert(agrees_at((59int, 102int)));
    assert(embedded_list()[61] == embedded_chunk_3()[5]);
    assert(seed_list()[105] == seed_chunk_4()[21]);
    assert(agrees_at((61int, 105int)));
    assert(embedded_list()[64] == embedded_chunk_3()[8]);
    assert(seed_list()[110] == seed_chunk_4()[26]);
    assert(agrees_at((64int, 110int)));
    assert(embedded_list()[65] == embedded_chunk_3()[9]);
    assert(seed_list()[111] == seed_chunk_4()[27]);
    assert(agrees_at((65int, 111int)));
    assert(embedded_list()[67] == embedded_chunk_3()[11]);
    assert(seed_list()[117] == seed_chunk_5()[5]);
    assert(agrees_at((67int, 117int)));
    assert(embedded_list()[68] == embedded_chunk_3()[12]);
    assert(seed_list()[118] == seed_chunk_5()[6]);
    assert(agrees_at((68int, 118int)));
    assert(embedded_list()[69] == embedded_chunk_3()[13]);
    assert(seed_list()[119] == seed_chunk_5()[7]);
    assert(agrees_at((69int, 119int)));
    assert(embedded_list()[70] == embedded_chunk_3()[14]);
    assert(seed_list()[120] == seed_chunk_5()[8]);
    assert(agrees_at((70int, 120int)));
    assert forall|q: int| 0 <= q < shared_group_4().len() implies agrees_at(#[trigger] shared_group_4()[q]) by {
        if q == 0 {
            assert(shared_group_4()[0] == (53int, 94int));
        }         else if q == 1 {
            assert(shared_group_4()[1] == (54int, 95int));
        }         else if q == 2 {
            assert(shared_group_4()[2] == (55int, 97int));
        }         else if q == 3 {
            assert(shared_group_4()[3] == (56int, 98int));
        }         else if q == 4 {
            assert(shared_group_4()[4] == (57int, 99int));
        }         else if q == 5 {
            assert(shared_group_4()[5] == (58int, 101int));
        }         else if q == 6 {
            assert(shared_group_4()[6] == (59int, 102int));
        }         else if q == 7 {
            assert(shared_group_4()[7] == (61int, 105int));
        }         else if q == 8 {
            assert(shared_group_4()[8] == (64int, 110int));
        }         else if q == 9 {
            assert(shared_group_4()[9] == (65int, 111int));
        }         else if q == 10 {
            assert(shared_group_4()[10] == (67int, 117int));
        }         else if q == 11 {
            assert(shared_group_4()[11] == (68int, 118int));
        }         else if q == 12 {
            assert(shared_group_4()[12] == (69int, 119int));
        }         else if q == 13 {
            assert(shared_group_4()[13] == (70int, 120int));
        }
    }
}

proof fn lemma_shared_group_5()
    ensures
        forall|q: int| 0 <= q < shared_group_5().len() ==> agrees_at(#[trigger] shared_group_5()[q]),
{
    assert(embedded_list()[72] == embedded_chunk_3()[16]);
    assert(seed_list()[122] == seed_chunk_5()[10]);
    assert(agrees_at((72int, 122int)));
    assert(embedded_list()[73] == embedded_chunk_3()[17]);
    assert(seed_list()[123] == seed_chunk_5()[11]);
    assert(agrees_at((73int, 123int)));
    assert(embedded_list()[75] == embedded_chunk_3()[19]);
    assert(seed_list()[126] == seed_chunk_5()[14]);
    assert(agrees_at((75int, 126int)));
    assert(embedded_list()[76] == embedded_chunk_3()[20]);
    assert(seed_list()[127] == seed_chunk_5()[15]);
    assert(agrees_at((76int, 127int)));
    assert(embedded_list()[77] == embedded_chunk_3()[21]);
    assert(seed_list()[128] == seed_chunk_5()[16]);
    assert(agrees_at((77int, 128int)));
    assert(embedded_list()[78] == embedded_chunk_3()[22]);
    assert(seed_list()[131] == seed_chunk_5()[19]);
    assert(agrees_at((78int, 131int)));
    assert(embedded_list()[80] == embedded_chunk_3()[24]);
    assert(seed_list()[134] == seed_chunk_5()[22]);
    assert(agrees_at((80int, 134int)));
    assert(embedded_list()[81] == embedded_chunk_3()[25]);
    assert(seed_list()[136] == seed_chunk_5()[24]);
    assert(agrees_at((81int, 136int)));
    assert(embedded_list()[82] == embedded_chunk_3()[26]);
    assert(seed_list()[137] == seed_chunk_5()[25]);
    assert(agrees_at((82int, 137int)));
    assert(embedded_list()[83] == embedded_chunk_3()[27]);
    assert(seed_list()[138] == seed_chunk_5()[26]);
    assert(agrees_at((83int, 138int)));
    assert(embedded_list()[84] == embedded_chunk_4()[0]);
    assert(seed_list()[139] == seed_chunk_5()[27]);
    assert(agrees_at((84int, 139int)));
    assert(embedded_list()[86] == embedded_chunk_4()[2]);
    assert(seed_list()[145] == seed_chunk_6()[5]);
    assert(agrees_at((86int, 145int)));
    assert(embedded_list()[88] == embedded_chunk_4()[4]);
    assert(seed_list()[149] == seed_chunk_6()[9]);
    assert(agrees_at((88int, 149int)));
    assert(embedded_list()[89] == embedded_chunk_4()[5]);
    assert(seed_list()[150] == seed_chunk_6()[10]);
    assert(agrees_at((89int, 150int)));
    assert forall|q: int| 0 <= q < shared_group_5().len() implies agrees_at(#[trigger] shared_group_5()[q]) by {
        if q == 0 {
            assert(shared_group_5()[0] == (72int, 122int));
        }         else if q == 1 {
            assert(shared_group_5()[1] == (73int, 123int));
        }         else if q == 2 {
            assert(shared_group_5()[2] == (75int, 126int));
        }         else if q == 3 {
            assert(shared_group_5()[3] == (76int, 127int));
        }         else if q == 4 {
            assert(shared_group_5()[4] == (77int, 128int));
        }         else if q == 5 {
            assert(shared_group_5()[5] == (78int, 131int));
        }         else if q == 6 {
            assert(shared_group_5()[6] == (80int, 134int));
        }         else if q == 7 {
            assert(shared_group_5()[7] == (81int, 136int));
        }         else if q == 8 {
            assert(shared_group_5()[8] == (82int, 137int));
        }         else if q == 9 {
            assert(shared_group_5()[9] == (83int, 138int));
        }         else if q == 10 {
            assert(shared_group_5()[10] == (84int, 139int));
        }         else if q == 11 {
            assert(shared_group_5()[11] == (86int, 145int));
        }         else if q == 12 {
            assert(shared_group_5()[12] == (88int, 149int));
        }         else if q == 13 {
            assert(shared_group_5()[13] == (89int, 150int));
        }
    }
}

proof fn lemma_shared_group_6()
    ensures
        forall|q: int| 0 <= q < shared_group_6().len() ==> agrees_at(#[trigger] shared_group_6()[q]),
{
    assert(embedded_list()[90] == embedded_chunk_4()[6]);
    assert(seed_list()[151] == seed_chunk_6()[11]);
    assert(agrees_at((90int, 151int)));
    assert(embedded_list()[91] == embedded_chunk_4()[7]);
    assert(seed_list()[152] == seed_chunk_6()[12]);
    assert(agrees_at((91int, 152int)));
    assert(embedded_list()[92] == embedded_chunk_4()[8]);
    assert(seed_list()[153] == seed_chunk_6()[13]);
    assert(agrees_at((92int, 153int)));
    assert(embedded_list()[93] == embedded_chunk_4()[9]);
    assert(seed_list()[156] == seed_chunk_6()[16]);
    assert(agrees_at((93int, 156int)));
    assert(embedded_list()[94] == embedded_chunk_4()[10]);
    assert(seed_list()[157] == seed_chunk_6()[17]);
    assert(agrees_at((94int, 157int)));
    assert(embedded_list()[95] == embedded_chunk_4()[11]);
    assert(seed_list()[166] == seed_chunk_6()[26]);
    assert(agrees_at((95int, 166int)));
    assert(embedded_list()[96] == embedded_chunk_4()[12]);
    assert(seed_list()[167] == seed_chunk_6()[27]);
    assert(agrees_at((96int, 167int)));
    assert(embedded_list()[97] == embedded_chunk_4()[13]);
    assert(seed_list()[168] == seed_chunk_7()[0]);
    assert(agrees_at((97int, 168int)));
    assert(embedded_list()[99] == embedded_chunk_4()[15]);
    assert(seed_list()[170] == seed_chunk_7()[2]);
    assert(agrees_at((99int, 170int)));
    assert(embedded_list()[100] == embedded_chunk_4()[16]);
    assert(seed_list()[172] == seed_chunk_7()[4]);
    assert(agrees_at((100int, 172int)));
    assert(embedded_list()[101] == embedded_chunk_4()[17]);
    assert(seed_list()[173] == seed_chunk_7()[5]);
    assert(agrees_at((101int, 173int)));
    assert(embedded_list()[102] == embedded_chunk_4()[18]);
    assert(seed_list()[174] == seed_chunk_7()[6]);
    assert(agrees_at((102int, 174int)));
    assert(embedded_list()[103] == embedded_chunk_4()[19]);
    assert(seed_list()[181] == seed_chunk_7()[13]);
    assert(agrees_at((103int, 181int)));
    assert(embedded_list()[104] == embedded_chunk_4()[20]);
    assert(seed_list()[182] == seed_chunk_7()[14]);
    assert(agrees_at((104int, 182int)));
    assert forall|q: int| 0 <= q < shared_group_6().len() implies agrees_at(#[trigger] shared_group_6()[q]) by {
        if q == 0 {
            assert(shared_group_6()[0] == (90int, 151int));
        }         else if q == 1 {
            assert(shared_group_6()[1] == (91int, 152int));
        }         else if q == 2 {
            assert(shared_group_6()[2] == (92int, 153int));
        }         else if q == 3 {
            assert(shared_group_6()[3] == (93int, 156int));
        }         else if q == 4 {
            assert(shared_group_6()[4] == (94int, 157int));
        }         else if q == 5 {
            assert(shared_group_6()[5] == (95int, 166int));
        }         else if q == 6 {
            assert(shared_group_6()[6] == (96int, 167int));
        }         else if q == 7 {
            assert(shared_group_6()[7] == (97int, 168int));
        }         else if q == 8 {
            assert(shared_group_6()[8] == (99int, 170int));
        }         else if q == 9 {
            assert(shared_group_6()[9] == (100int, 172int));
        }         else if q == 10 {
            assert(shared_group_6()[10] == (101int, 173int));
        }         else if q == 11 {
            assert(shared_group_6()[11] == (102int, 174int));
        }         else if q == 12 {
            assert(shared_group_6()[12] == (103int, 181int));
        }         else if q == 13 {
            assert(shared_group_6()[13] == (104int, 182int));
        }
    }
}

proof fn lemma_shared_group_7()
    ensures
        forall|q: int| 0 <= q < shared_group_7().len() ==> agrees_at(#[trigger] shared_group_7()[q]),
{
    assert(embedded_list()[105] == embedded_chunk_4()[21]);
    assert(seed_list()[183] == seed_chunk_7()[15]);
    assert(agrees_at((105int, 183int)));
    assert(embedded_list()[106] == embedded_chunk_4()[22]);
    assert(seed_list()[185] == seed_chunk_7()[17]);
    assert(agrees_at((106int, 185int)));
    assert(embedded_list()[107] == embedded_chunk_4()[23]);
    assert(seed_list()[200] == seed_chunk_8()[4]);
    assert(agrees_at((107int, 200int)));
    assert(embedded_list()[108] == embedded_chunk_4()[24]);
    assert(seed_list()[201] == seed_chunk_8()[5]);
    assert(agrees_at((108int, 201int)));
    assert(embedded_list()[109] == embedded_chunk_4()[25]);
    assert(seed_list()[202] == seed_chunk_8()[6]);
    assert(agrees_at((109int, 202int)));
    assert(embedded_list()[110] == embedded_chunk_4()[26]);
    assert(seed_list()[203] == seed_chunk_8()[7]);
    assert(agrees_at((110int, 203int)));
    assert(embedded_list()[111] == embedded_chunk_4()[27]);
    assert(seed_list()[204] == seed_chunk_8()[8]);
    assert(agrees_at((111int, 204int)));
    assert(embedded_list()[112] == embedded_chunk_5()[0]);
    assert(seed_list()[205] == seed_chunk_8()[9]);
    assert(agrees_at((112int, 205int)));
    assert(embedded_list()[113] == embedded_chunk_5()[1]);
    assert(seed_list()[206] == seed_chunk_8()[10]);
    assert(agrees_at((113int, 206int)));
    assert(embedded_list()[114] == embedded_chunk_5()[2]);
    assert(seed_list()[194] == seed_chunk_7()[26]);
    assert(agrees_at((114int, 194int)));
    assert(embedded_list()[115] == embedded_chunk_5()[3]);
    assert(seed_list()[195] == seed_chunk_7()[27]);
    assert(agrees_at((115int, 195int)));
    assert(embedded_list()[116] == embedded_chunk_5()[4]);
    assert(seed_list()[196] == seed_chunk_8()[0]);
    assert(agrees_at((116int, 196int)));
    assert(embedded_list()[117] == embedded_chunk_5()[5]);
    assert(seed_list()[197] == seed_chunk_8()[1]);
    assert(agrees_at((117int, 197int)));
    assert(embedded_list()[118] == embedded_chunk_5()[6]);
    assert(seed_list()[198] == seed_chunk_8()[2]);
    assert(agrees_at((118int, 198int)));
    assert forall|q: int| 0 <= q < shared_group_7().len() implies agrees_at(#[trigger] shared_group_7()[q]) by {
        if q == 0 {
            assert(shared_group_7()[0] == (105int, 183int));
        }         else if q == 1 {
            assert(shared_group_7()[1] == (106int, 185int));
        }         else if q == 2 {
            assert(shared_group_7()[2] == (107int, 200int));
        }         else if q == 3 {
            assert(shared_group_7()[3] == (108int, 201int));
        }         else if q == 4 {
            assert(shared_group_7()[4] == (109int, 202int));
        }         else if q == 5 {
            assert(shared_group_7()[5] == (110int, 203int));
        }         else if q == 6 {
            assert(shared_group_7()[6] == (111int, 204int));
        }         else if q == 7 {
            assert(shared_group_7()[7] == (112int, 205int));
        }         else if q == 8 {
            assert(shared_group_7()[8] == (113int, 206int));
        }         else if q == 9 {
            assert(shared_group_7()[9] == (114int, 194int));
        }         else if q == 10 {
            assert(shared_group_7()[10] == (115int, 195int));
        }         else if q == 11 {
            assert(shared_group_7()[11] == (116int, 196int));
        }         else if q == 12 {
            assert(shared_group_7()[12] == (117int, 197int));
        }         else if q == 13 {
            assert(shared_group_7()[13] == (118int, 198int));
        }
    }
}

/// Every signature that the fetcher's embedded list shares by name with the
/// seed list has the same extension, offset and pattern text in both.
pub proof fn lemma_embedded_agrees_with_seeds()
    ensures
        forall|p: int| 0 <= p < shared_positions().len() ==> agrees_at(#[trigger] shared_positions()[p]),
{
    lemma_shared_group_1();
    lemma_shared_group_2();
    lemma_shared_group_3();
    lemma_shared_group_4();
    lemma_shared_group_5();
    lemma_shared_group_6();
    lemma_shared_group_7();
    assert forall|p: int| 0 <= p < shared_positions().len() implies agrees_at(#[trigger] shared_positions()[p]) by {
        if p < 14 {
            assert(shared_positions()[p] == shared_group_1()[p - 0]);
        }         else if p < 28 {
            assert(shared_positions()[p] == shared_group_2()[p - 14]);
        }         else if p < 42 {
            assert(shared_positions()[p] == shared_group_3()[p - 28]);
        }         else if p < 56 {
            assert(shared_positions()[p] == shared_group_4()[p - 42]);
        }         else if p < 70 {
            assert(shared_positions()[p] == shared_group_5()[p - 56]);
        }         else if p < 84 {
            assert(shared_positions()[p] == shared_group_6()[p - 70]);
        }         else if p < 98 {
            assert(shared_positions()[p] == shared_group_7()[p - 84]);
        }
    }
}

/// The list `l` holds the signature with these fields.
pub open spec fn lists_signature(
    l: Seq<SigDef>,
    name: &'static str,
    mime: Option<&'static str>,
    extension: Option<&'static str>,
    offset: i64,
    hex: &'static str,
) -> bool {
    exists|k: int| 0 <= k < l.len() && l[k] == (SigDef { name, mime, extension, offset, hex })
}

/// The built-in lists hold the signatures that the documentation names: the
/// seed list ZIP (`PK\x03\x04`), PNG, JPEG, PE (`MZ`), PDF (`%PDF-`), TAR
/// (`ustar` at 257) and ISO 9660 (`CD001` at 32769); the embedded list ZIP
/// first, then PE, ELF and TAR.
pub proof fn lemma_documented_signatures()
    ensures
        lists_signature(seed_list(), "ZIP archive", Some("application/zip"), Some(".zip"), 0, "504B0304"),
        lists_signature(seed_list(), "PNG image", Some("image/png"), Some(".png"), 0, "89504E470D0A1A0A"),
        lists_signature(seed_list(), "JPEG image", Some("image/jpeg"), Some(".jpg"), 0, "FFD8FF"),
        lists_signature(seed_list(), "PE executable", Some("application/x-msdownload"), Some(".exe"), 0, "4D5A"),
        lists_signature(seed_list(), "PDF document", Some("application/pdf"), Some(".pdf"), 0, "255044462D"),
        lists_signature(seed_list(), "TAR POSIX archive", Some("application/x-tar"), Some(".tar"), 257, "757374617200"),
        lists_signature(seed_list(), "ISO 9660 CD image", Some("application/x-iso9660-image"), Some(".iso"), 32769, "4344303031"),
        lists_signature(embedded_list(), "ZIP archive", Some("application/zip"), Some(".zip"), 0, "504B0304"),
        lists_signature(embedded_list(), "PE executable", Some("application/x-msdownload"), Some(".exe"), 0, "4D5A"),
        lists_signature(embedded_list(), "ELF 32-bit LSB", Some("application/x-elf"), None, 0, "7F454C4601010100"),
        lists_signature(embedded_list(), "TAR POSIX archive", Some("application/x-tar"), Some(".tar"), 257, "757374617200"),
        embedded_list()[0] == (SigDef { name: "ZIP archive", mime: Some("application/zip"), extension: Some(".zip"), offset: 0, hex: "504B0304" }),
{
    assert(seed_list()[0] == seed_chunk_1()[0]);
    assert(seed_list()[28] == seed_chunk_2()[0]);
    assert(seed_list()[29] == seed_chunk_2()[1]);
    assert(seed_list()[60] == seed_chunk_3()[4]);
    assert(seed_list()[76] == seed_chunk_3()[20]);
    assert(seed_list()[9] == seed_chunk_1()[9]);
    assert(seed_list()[143] == seed_chunk_6()[3]);
    assert(embedded_list()[0] == embedded_chunk_1()[0]);
    assert(embedded_list()[38] == embedded_chunk_2()[10]);
    assert(embedded_list()[40] == embedded_chunk_2()[12]);
    assert(embedded_list()[9] == embedded_chunk_1()[9]);
}

} // verus!
