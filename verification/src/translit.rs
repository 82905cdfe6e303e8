//! Per-character transliteration tables: kana to romaji, cyrillic to
//! latin, and accent stripping.

use vstd::prelude::*;
use crate::strings::StringUtils;

verus! {

/// The romanization of one kana character, if the table knows it.
pub open spec fn spec_hiragana_to_romaji(c: char) -> Option<Seq<char>> {
    match c {
            'あ' => Some("a"@),
            'い' => Some("i"@),
            'う' => Some("u"@),
            'え' => Some("e"@),
            'お' => Some("o"@),
            'か' => Some("ka"@),
            'き' => Some("ki"@),
            'く' => Some("ku"@),
            'け' => Some("ke"@),
            'こ' => Some("ko"@),
            'さ' => Some("sa"@),
            'し' => Some("shi"@),
            'す' => Some("su"@),
            'せ' => Some("se"@),
            'そ' => Some("so"@),
            'た' => Some("ta"@),
            'ち' => Some("chi"@),
            'つ' => Some("tsu"@),
            'て' => Some("te"@),
            'と' => Some("to"@),
            'な' => Some("na"@),
            'に' => Some("ni"@),
            'ぬ' => Some("nu"@),
            'ね' => Some("ne"@),
            'の' => Some("no"@),
            'は' => Some("ha"@),
            'ひ' => Some("hi"@),
            'ふ' => Some("fu"@),
            'へ' => Some("he"@),
            'ほ' => Some("ho"@),
            'ま' => Some("ma"@),
            'み' => Some("mi"@),
            'む' => Some("mu"@),
            'め' => Some("me"@),
            'も' => Some("mo"@),
            'や' => Some("ya"@),
            'ゆ' => Some("yu"@),
            'よ' => Some("yo"@),
            'ら' => Some("ra"@),
            'り' => Some("ri"@),
            'る' => Some("ru"@),
            'れ' => Some("re"@),
            'ろ' => Some("ro"@),
            'わ' => Some("wa"@),
            'を' => Some("wo"@),
            'ん' => Some("n"@),
            'っ' => Some("tsu"@),
            'ぁ' => Some("a"@),
            'ぃ' => Some("i"@),
            'ぅ' => Some("u"@),
            'ぇ' => Some("e"@),
            'ぉ' => Some("o"@),
            'が' => Some("ga"@),
            'ぎ' => Some("gi"@),
            'ぐ' => Some("gu"@),
            'げ' => Some("ge"@),
            'ご' => Some("go"@),
            'ざ' => Some("za"@),
            'じ' => Some("ji"@),
            'ず' => Some("zu"@),
            'ぜ' => Some("ze"@),
            'ぞ' => Some("zo"@),
            'だ' => Some("da"@),
            'ぢ' => Some("ji"@),
            'づ' => Some("zu"@),
            'で' => Some("de"@),
            'ど' => Some("do"@),
            'ば' => Some("ba"@),
            'び' => Some("bi"@),
            'ぶ' => Some("bu"@),
            'べ' => Some("be"@),
            'ぼ' => Some("bo"@),
            'ぱ' => Some("pa"@),
            'ぴ' => Some("pi"@),
            'ぷ' => Some("pu"@),
            'ぺ' => Some("pe"@),
            'ぽ' => Some("po"@),
            _ => None,
    }
}

impl StringUtils {
    /// Romanizes one kana character, if the table knows it.
    pub fn hiragana_to_romaji(c: char) -> (r: Option<&'static str>)
        ensures
            match r {
                Some(s) => spec_hiragana_to_romaji(c) == Some(s@),
                None => spec_hiragana_to_romaji(c) is None,
            },
    {
        let r: Option<&'static str> = match c {
            'あ' => Some("a"),
            'い' => Some("i"),
            'う' => Some("u"),
            'え' => Some("e"),
            'お' => Some("o"),
            'か' => Some("ka"),
            'き' => Some("ki"),
            'く' => Some("ku"),
            'け' => Some("ke"),
            'こ' => Some("ko"),
            'さ' => Some("sa"),
            'し' => Some("shi"),
            'す' => Some("su"),
            'せ' => Some("se"),
            'そ' => Some("so"),
            'た' => Some("ta"),
            'ち' => Some("chi"),
            'つ' => Some("tsu"),
            'て' => Some("te"),
            'と' => Some("to"),
            'な' => Some("na"),
            'に' => Some("ni"),
            'ぬ' => Some("nu"),
            'ね' => Some("ne"),
            'の' => Some("no"),
            'は' => Some("ha"),
            'ひ' => Some("hi"),
            'ふ' => Some("fu"),
            'へ' => Some("he"),
            'ほ' => Some("ho"),
            'ま' => Some("ma"),
            'み' => Some("mi"),
            'む' => Some("mu"),
            'め' => Some("me"),
            'も' => Some("mo"),
            'や' => Some("ya"),
            'ゆ' => Some("yu"),
            'よ' => Some("yo"),
            'ら' => Some("ra"),
            'り' => Some("ri"),
            'る' => Some("ru"),
            'れ' => Some("re"),
            'ろ' => Some("ro"),
            'わ' => Some("wa"),
            'を' => Some("wo"),
            'ん' => Some("n"),
            'っ' => Some("tsu"),
            'ぁ' => Some("a"),
            'ぃ' => Some("i"),
            'ぅ' => Some("u"),
            'ぇ' => Some("e"),
            'ぉ' => Some("o"),
            'が' => Some("ga"),
            'ぎ' => Some("gi"),
            'ぐ' => Some("gu"),
            'げ' => Some("ge"),
            'ご' => Some("go"),
            'ざ' => Some("za"),
            'じ' => Some("ji"),
            'ず' => Some("zu"),
            'ぜ' => Some("ze"),
            'ぞ' => Some("zo"),
            'だ' => Some("da"),
            'ぢ' => Some("ji"),
            'づ' => Some("zu"),
            'で' => Some("de"),
            'ど' => Some("do"),
            'ば' => Some("ba"),
            'び' => Some("bi"),
            'ぶ' => Some("bu"),
            'べ' => Some("be"),
            'ぼ' => Some("bo"),
            'ぱ' => Some("pa"),
            'ぴ' => Some("pi"),
            'ぷ' => Some("pu"),
            'ぺ' => Some("pe"),
            'ぽ' => Some("po"),
            _ => None,
        };
        r
    }
}

/// The latin transliteration of one cyrillic character, if the table knows it.
pub open spec fn spec_cyrillic_to_latin(c: char) -> Option<Seq<char>> {
    match c {
            'А' => Some("A"@),
            'Б' => Some("B"@),
            'В' => Some("V"@),
            'Г' => Some("G"@),
            'Д' => Some("D"@),
            'Е' => Some("E"@),
            'Ё' => Some("Yo"@),
            'Ж' => Some("Zh"@),
            'З' => Some("Z"@),
            'И' => Some("I"@),
            'Й' => Some("Y"@),
            'К' => Some("K"@),
            'Л' => Some("L"@),
            'М' => Some("M"@),
            'Н' => Some("N"@),
            'О' => Some("O"@),
            'П' => Some("P"@),
            'Р' => Some("R"@),
            'С' => Some("S"@),
            'Т' => Some("T"@),
            'У' => Some("U"@),
            'Ф' => Some("F"@),
            'Х' => Some("Kh"@),
            'Ц' => Some("Ts"@),
            'Ч' => Some("Ch"@),
            'Ш' => Some("Sh"@),
            'Щ' => Some("Shch"@),
            'Ъ' => Some(""@),
            'Ы' => Some("Y"@),
            'Ь' => Some(""@),
            'Э' => Some("E"@),
            'Ю' => Some("Yu"@),
            'Я' => Some("Ya"@),
            'а' => Some("a"@),
            'б' => Some("b"@),
            'в' => Some("v"@),
            'г' => Some("g"@),
            'д' => Some("d"@),
            'е' => Some("e"@),
            'ё' => Some("yo"@),
            'ж' => Some("zh"@),
            'з' => Some("z"@),
            'и' => Some("i"@),
            'й' => Some("y"@),
            'к' => Some("k"@),
            'л' => Some("l"@),
            'м' => Some("m"@),
            'н' => Some("n"@),
            'о' => Some("o"@),
            'п' => Some("p"@),
            'р' => Some("r"@),
            'с' => Some("s"@),
            'т' => Some("t"@),
            'у' => Some("u"@),
            'ф' => Some("f"@),
            'х' => Some("kh"@),
            'ц' => Some("ts"@),
            'ч' => Some("ch"@),
            'ш' => Some("sh"@),
            'щ' => Some("shch"@),
            'ъ' => Some(""@),
            'ы' => Some("y"@),
            'ь' => Some(""@),
            'э' => Some("e"@),
            'ю' => Some("yu"@),
            'я' => Some("ya"@),
            _ => None,
    }
}

impl StringUtils {
    /// Transliterates one cyrillic character to latin, if the table knows it.
    pub fn cyrillic_to_latin(c: char) -> (r: Option<&'static str>)
        ensures
            match r {
                Some(s) => spec_cyrillic_to_latin(c) == Some(s@),
                None => spec_cyrillic_to_latin(c) is None,
            },
    {
        let r: Option<&'static str> = match c {
            'А' => Some("A"),
            'Б' => Some("B"),
            'В' => Some("V"),
            'Г' => Some("G"),
            'Д' => Some("D"),
            'Е' => Some("E"),
            'Ё' => Some("Yo"),
            'Ж' => Some("Zh"),
            'З' => Some("Z"),
            'И' => Some("I"),
            'Й' => Some("Y"),
            'К' => Some("K"),
            'Л' => Some("L"),
            'М' => Some("M"),
            'Н' => Some("N"),
            'О' => Some("O"),
            'П' => Some("P"),
            'Р' => Some("R"),
            'С' => Some("S"),
            'Т' => Some("T"),
            'У' => Some("U"),
            'Ф' => Some("F"),
            'Х' => Some("Kh"),
            'Ц' => Some("Ts"),
            'Ч' => Some("Ch"),
            'Ш' => Some("Sh"),
            'Щ' => Some("Shch"),
            'Ъ' => Some(""),
            'Ы' => Some("Y"),
            'Ь' => Some(""),
            'Э' => Some("E"),
            'Ю' => Some("Yu"),
            'Я' => Some("Ya"),
            'а' => Some("a"),
            'б' => Some("b"),
            'в' => Some("v"),
            'г' => Some("g"),
            'д' => Some("d"),
            'е' => Some("e"),
            'ё' => Some("yo"),
            'ж' => Some("zh"),
            'з' => Some("z"),
            'и' => Some("i"),
            'й' => Some("y"),
            'к' => Some("k"),
            'л' => Some("l"),
            'м' => Some("m"),
            'н' => Some("n"),
            'о' => Some("o"),
            'п' => Some("p"),
            'р' => Some("r"),
            'с' => Some("s"),
            'т' => Some("t"),
            'у' => Some("u"),
            'ф' => Some("f"),
            'х' => Some("kh"),
            'ц' => Some("ts"),
            'ч' => Some("ch"),
            'ш' => Some("sh"),
            'щ' => Some("shch"),
            'ъ' => Some(""),
            'ы' => Some("y"),
            'ь' => Some(""),
            'э' => Some("e"),
            'ю' => Some("yu"),
            'я' => Some("ya"),
            _ => None,
        };
        r
    }
}

/// Strips the accent from one accented latin character; any other
/// character stays as it is.
pub open spec fn spec_remove_accents(c: char) -> char {
    match c {
            'á' => 'a',
            'à' => 'a',
            'ä' => 'a',
            'â' => 'a',
            'é' => 'e',
            'è' => 'e',
            'ë' => 'e',
            'ê' => 'e',
            'í' => 'i',
            'ì' => 'i',
            'ï' => 'i',
            'î' => 'i',
            'ó' => 'o',
            'ò' => 'o',
            'ö' => 'o',
            'ô' => 'o',
            'ú' => 'u',
            'ù' => 'u',
            'ü' => 'u',
            'û' => 'u',
            'ñ' => 'n',
            'ç' => 'c',
            'Á' => 'A',
            'À' => 'A',
            'Ä' => 'A',
            'Â' => 'A',
            'É' => 'E',
            'È' => 'E',
            'Ë' => 'E',
            'Ê' => 'E',
            'Í' => 'I',
            'Ì' => 'I',
            'Ï' => 'I',
            'Î' => 'I',
            'Ó' => 'O',
            'Ò' => 'O',
            'Ö' => 'O',
            'Ô' => 'O',
            'Ú' => 'U',
            'Ù' => 'U',
            'Ü' => 'U',
            'Û' => 'U',
            'Ñ' => 'N',
            'Ç' => 'C',
            _ => c,
    }
}

impl StringUtils {
    /// Strips the accent from one accented latin character.
    pub fn remove_spanish_accents(c: char) -> (r: char)
        ensures
            r == spec_remove_accents(c),
    {
        match c {
            'á' => 'a',
            'à' => 'a',
            'ä' => 'a',
            'â' => 'a',
            'é' => 'e',
            'è' => 'e',
            'ë' => 'e',
            'ê' => 'e',
            'í' => 'i',
            'ì' => 'i',
            'ï' => 'i',
            'î' => 'i',
            'ó' => 'o',
            'ò' => 'o',
            'ö' => 'o',
            'ô' => 'o',
            'ú' => 'u',
            'ù' => 'u',
            'ü' => 'u',
            'û' => 'u',
            'ñ' => 'n',
            'ç' => 'c',
            'Á' => 'A',
            'À' => 'A',
            'Ä' => 'A',
            'Â' => 'A',
            'É' => 'E',
            'È' => 'E',
            'Ë' => 'E',
            'Ê' => 'E',
            'Í' => 'I',
            'Ì' => 'I',
            'Ï' => 'I',
            'Î' => 'I',
            'Ó' => 'O',
            'Ò' => 'O',
            'Ö' => 'O',
            'Ô' => 'O',
            'Ú' => 'U',
            'Ù' => 'U',
            'Ü' => 'U',
            'Û' => 'U',
            'Ñ' => 'N',
            'Ç' => 'C',
            _ => c,
        }
    }
}

} // verus!
