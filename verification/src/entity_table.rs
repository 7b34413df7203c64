use crate::text::text_eq;
use vstd::prelude::*;
use vstd::string::*;

verus! {

/// The punctuation and signs of Latin-1, U+00A0 to U+00BF.
pub open spec fn latin1_symbol(name: Seq<char>) -> Option<u32> {
    if name == "nbsp"@ {
        Some(160u32)
    } else if name == "iexcl"@ {
        Some(161u32)
    } else if name == "cent"@ {
        Some(162u32)
    } else if name == "pound"@ {
        Some(163u32)
    } else if name == "curren"@ {
        Some(164u32)
    } else if name == "yen"@ {
        Some(165u32)
    } else if name == "brvbar"@ {
        Some(166u32)
    } else if name == "sect"@ {
        Some(167u32)
    } else if name == "uml"@ {
        Some(168u32)
    } else if name == "copy"@ {
        Some(169u32)
    } else if name == "ordf"@ {
        Some(170u32)
    } else if name == "laquo"@ {
        Some(171u32)
    } else if name == "not"@ {
        Some(172u32)
    } else if name == "shy"@ {
        Some(173u32)
    } else if name == "reg"@ {
        Some(174u32)
    } else if name == "macr"@ {
        Some(175u32)
    } else if name == "deg"@ {
        Some(176u32)
    } else if name == "plusmn"@ {
        Some(177u32)
    } else if name == "sup2"@ {
        Some(178u32)
    } else if name == "sup3"@ {
        Some(179u32)
    } else if name == "acute"@ {
        Some(180u32)
    } else if name == "micro"@ {
        Some(181u32)
    } else if name == "para"@ {
        Some(182u32)
    } else if name == "middot"@ {
        Some(183u32)
    } else if name == "cedil"@ {
        Some(184u32)
    } else if name == "sup1"@ {
        Some(185u32)
    } else if name == "ordm"@ {
        Some(186u32)
    } else if name == "raquo"@ {
        Some(187u32)
    } else if name == "frac14"@ {
        Some(188u32)
    } else if name == "frac12"@ {
        Some(189u32)
    } else if name == "frac34"@ {
        Some(190u32)
    } else if name == "iquest"@ {
        Some(191u32)
    } else {
        None
    }
}

fn lookup_latin1_symbol(name: &str) -> (r: Option<u32>)
    ensures
        r == latin1_symbol(name@),
        r matches Some(code) ==> 0 < code < 0xD800,
{
    if text_eq(name, "nbsp") {
        Some(160)
    } else if text_eq(name, "iexcl") {
        Some(161)
    } else if text_eq(name, "cent") {
        Some(162)
    } else if text_eq(name, "pound") {
        Some(163)
    } else if text_eq(name, "curren") {
        Some(164)
    } else if text_eq(name, "yen") {
        Some(165)
    } else if text_eq(name, "brvbar") {
        Some(166)
    } else if text_eq(name, "sect") {
        Some(167)
    } else if text_eq(name, "uml") {
        Some(168)
    } else if text_eq(name, "copy") {
        Some(169)
    } else if text_eq(name, "ordf") {
        Some(170)
    } else if text_eq(name, "laquo") {
        Some(171)
    } else if text_eq(name, "not") {
        Some(172)
    } else if text_eq(name, "shy") {
        Some(173)
    } else if text_eq(name, "reg") {
        Some(174)
    } else if text_eq(name, "macr") {
        Some(175)
    } else if text_eq(name, "deg") {
        Some(176)
    } else if text_eq(name, "plusmn") {
        Some(177)
    } else if text_eq(name, "sup2") {
        Some(178)
    } else if text_eq(name, "sup3") {
        Some(179)
    } else if text_eq(name, "acute") {
        Some(180)
    } else if text_eq(name, "micro") {
        Some(181)
    } else if text_eq(name, "para") {
        Some(182)
    } else if text_eq(name, "middot") {
        Some(183)
    } else if text_eq(name, "cedil") {
        Some(184)
    } else if text_eq(name, "sup1") {
        Some(185)
    } else if text_eq(name, "ordm") {
        Some(186)
    } else if text_eq(name, "raquo") {
        Some(187)
    } else if text_eq(name, "frac14") {
        Some(188)
    } else if text_eq(name, "frac12") {
        Some(189)
    } else if text_eq(name, "frac34") {
        Some(190)
    } else if text_eq(name, "iquest") {
        Some(191)
    } else {
        None
    }
}

/// The capital letters of Latin-1 (with the multiplication sign and the sharp s), U+00C0 to U+00DF.
pub open spec fn latin1_capital(name: Seq<char>) -> Option<u32> {
    if name == "Agrave"@ {
        Some(192u32)
    } else if name == "Aacute"@ {
        Some(193u32)
    } else if name == "Acirc"@ {
        Some(194u32)
    } else if name == "Atilde"@ {
        Some(195u32)
    } else if name == "Auml"@ {
        Some(196u32)
    } else if name == "Aring"@ {
        Some(197u32)
    } else if name == "AElig"@ {
        Some(198u32)
    } else if name == "Ccedil"@ {
        Some(199u32)
    } else if name == "Egrave"@ {
        Some(200u32)
    } else if name == "Eacute"@ {
        Some(201u32)
    } else if name == "Ecirc"@ {
        Some(202u32)
    } else if name == "Euml"@ {
        Some(203u32)
    } else if name == "Igrave"@ {
        Some(204u32)
    } else if name == "Iacute"@ {
        Some(205u32)
    } else if name == "Icirc"@ {
        Some(206u32)
    } else if name == "Iuml"@ {
        Some(207u32)
    } else if name == "ETH"@ {
        Some(208u32)
    } else if name == "Ntilde"@ {
        Some(209u32)
    } else if name == "Ograve"@ {
        Some(210u32)
    } else if name == "Oacute"@ {
        Some(211u32)
    } else if name == "Ocirc"@ {
        Some(212u32)
    } else if name == "Otilde"@ {
        Some(213u32)
    } else if name == "Ouml"@ {
        Some(214u32)
    } else if name == "times"@ {
        Some(215u32)
    } else if name == "Oslash"@ {
        Some(216u32)
    } else if name == "Ugrave"@ {
        Some(217u32)
    } else if name == "Uacute"@ {
        Some(218u32)
    } else if name == "Ucirc"@ {
        Some(219u32)
    } else if name == "Uuml"@ {
        Some(220u32)
    } else if name == "Yacute"@ {
        Some(221u32)
    } else if name == "THORN"@ {
        Some(222u32)
    } else if name == "szlig"@ {
        Some(223u32)
    } else {
        None
    }
}

fn lookup_latin1_capital(name: &str) -> (r: Option<u32>)
    ensures
        r == latin1_capital(name@),
        r matches Some(code) ==> 0 < code < 0xD800,
{
    if text_eq(name, "Agrave") {
        Some(192)
    } else if text_eq(name, "Aacute") {
        Some(193)
    } else if text_eq(name, "Acirc") {
        Some(194)
    } else if text_eq(name, "Atilde") {
        Some(195)
    } else if text_eq(name, "Auml") {
        Some(196)
    } else if text_eq(name, "Aring") {
        Some(197)
    } else if text_eq(name, "AElig") {
        Some(198)
    } else if text_eq(name, "Ccedil") {
        Some(199)
    } else if text_eq(name, "Egrave") {
        Some(200)
    } else if text_eq(name, "Eacute") {
        Some(201)
    } else if text_eq(name, "Ecirc") {
        Some(202)
    } else if text_eq(name, "Euml") {
        Some(203)
    } else if text_eq(name, "Igrave") {
        Some(204)
    } else if text_eq(name, "Iacute") {
        Some(205)
    } else if text_eq(name, "Icirc") {
        Some(206)
    } else if text_eq(name, "Iuml") {
        Some(207)
    } else if text_eq(name, "ETH") {
        Some(208)
    } else if text_eq(name, "Ntilde") {
        Some(209)
    } else if text_eq(name, "Ograve") {
        Some(210)
    } else if text_eq(name, "Oacute") {
        Some(211)
    } else if text_eq(name, "Ocirc") {
        Some(212)
    } else if text_eq(name, "Otilde") {
        Some(213)
    } else if text_eq(name, "Ouml") {
        Some(214)
    } else if text_eq(name, "times") {
        Some(215)
    } else if text_eq(name, "Oslash") {
        Some(216)
    } else if text_eq(name, "Ugrave") {
        Some(217)
    } else if text_eq(name, "Uacute") {
        Some(218)
    } else if text_eq(name, "Ucirc") {
        Some(219)
    } else if text_eq(name, "Uuml") {
        Some(220)
    } else if text_eq(name, "Yacute") {
        Some(221)
    } else if text_eq(name, "THORN") {
        Some(222)
    } else if text_eq(name, "szlig") {
        Some(223)
    } else {
        None
    }
}

/// The small letters of Latin-1 (with the division sign), U+00E0 to U+00FF.
pub open spec fn latin1_small(name: Seq<char>) -> Option<u32> {
    if name == "agrave"@ {
        Some(224u32)
    } else if name == "aacute"@ {
        Some(225u32)
    } else if name == "acirc"@ {
        Some(226u32)
    } else if name == "atilde"@ {
        Some(227u32)
    } else if name == "auml"@ {
        Some(228u32)
    } else if name == "aring"@ {
        Some(229u32)
    } else if name == "aelig"@ {
        Some(230u32)
    } else if name == "ccedil"@ {
        Some(231u32)
    } else if name == "egrave"@ {
        Some(232u32)
    } else if name == "eacute"@ {
        Some(233u32)
    } else if name == "ecirc"@ {
        Some(234u32)
    } else if name == "euml"@ {
        Some(235u32)
    } else if name == "igrave"@ {
        Some(236u32)
    } else if name == "iacute"@ {
        Some(237u32)
    } else if name == "icirc"@ {
        Some(238u32)
    } else if name == "iuml"@ {
        Some(239u32)
    } else if name == "eth"@ {
        Some(240u32)
    } else if name == "ntilde"@ {
        Some(241u32)
    } else if name == "ograve"@ {
        Some(242u32)
    } else if name == "oacute"@ {
        Some(243u32)
    } else if name == "ocirc"@ {
        Some(244u32)
    } else if name == "otilde"@ {
        Some(245u32)
    } else if name == "ouml"@ {
        Some(246u32)
    } else if name == "divide"@ {
        Some(247u32)
    } else if name == "oslash"@ {
        Some(248u32)
    } else if name == "ugrave"@ {
        Some(249u32)
    } else if name == "uacute"@ {
        Some(250u32)
    } else if name == "ucirc"@ {
        Some(251u32)
    } else if name == "uuml"@ {
        Some(252u32)
    } else if name == "yacute"@ {
        Some(253u32)
    } else if name == "thorn"@ {
        Some(254u32)
    } else if name == "yuml"@ {
        Some(255u32)
    } else {
        None
    }
}

fn lookup_latin1_small(name: &str) -> (r: Option<u32>)
    ensures
        r == latin1_small(name@),
        r matches Some(code) ==> 0 < code < 0xD800,
{
    if text_eq(name, "agrave") {
        Some(224)
    } else if text_eq(name, "aacute") {
        Some(225)
    } else if text_eq(name, "acirc") {
        Some(226)
    } else if text_eq(name, "atilde") {
        Some(227)
    } else if text_eq(name, "auml") {
        Some(228)
    } else if text_eq(name, "aring") {
        Some(229)
    } else if text_eq(name, "aelig") {
        Some(230)
    } else if text_eq(name, "ccedil") {
        Some(231)
    } else if text_eq(name, "egrave") {
        Some(232)
    } else if text_eq(name, "eacute") {
        Some(233)
    } else if text_eq(name, "ecirc") {
        Some(234)
    } else if text_eq(name, "euml") {
        Some(235)
    } else if text_eq(name, "igrave") {
        Some(236)
    } else if text_eq(name, "iacute") {
        Some(237)
    } else if text_eq(name, "icirc") {
        Some(238)
    } else if text_eq(name, "iuml") {
        Some(239)
    } else if text_eq(name, "eth") {
        Some(240)
    } else if text_eq(name, "ntilde") {
        Some(241)
    } else if text_eq(name, "ograve") {
        Some(242)
    } else if text_eq(name, "oacute") {
        Some(243)
    } else if text_eq(name, "ocirc") {
        Some(244)
    } else if text_eq(name, "otilde") {
        Some(245)
    } else if text_eq(name, "ouml") {
        Some(246)
    } else if text_eq(name, "divide") {
        Some(247)
    } else if text_eq(name, "oslash") {
        Some(248)
    } else if text_eq(name, "ugrave") {
        Some(249)
    } else if text_eq(name, "uacute") {
        Some(250)
    } else if text_eq(name, "ucirc") {
        Some(251)
    } else if text_eq(name, "uuml") {
        Some(252)
    } else if text_eq(name, "yacute") {
        Some(253)
    } else if text_eq(name, "thorn") {
        Some(254)
    } else if text_eq(name, "yuml") {
        Some(255)
    } else {
        None
    }
}

/// The florin sign and the Greek capital letters.
pub open spec fn greek_capital(name: Seq<char>) -> Option<u32> {
    if name == "fnof"@ {
        Some(402u32)
    } else if name == "Alpha"@ {
        Some(913u32)
    } else if name == "Beta"@ {
        Some(914u32)
    } else if name == "Gamma"@ {
        Some(915u32)
    } else if name == "Delta"@ {
        Some(916u32)
    } else if name == "Epsilon"@ {
        Some(917u32)
    } else if name == "Zeta"@ {
        Some(918u32)
    } else if name == "Eta"@ {
        Some(919u32)
    } else if name == "Theta"@ {
        Some(920u32)
    } else if name == "Iota"@ {
        Some(921u32)
    } else if name == "Kappa"@ {
        Some(922u32)
    } else if name == "Lambda"@ {
        Some(923u32)
    } else if name == "Mu"@ {
        Some(924u32)
    } else if name == "Nu"@ {
        Some(925u32)
    } else if name == "Xi"@ {
        Some(926u32)
    } else if name == "Omicron"@ {
        Some(927u32)
    } else if name == "Pi"@ {
        Some(928u32)
    } else if name == "Rho"@ {
        Some(929u32)
    } else if name == "Sigma"@ {
        Some(931u32)
    } else if name == "Tau"@ {
        Some(932u32)
    } else if name == "Upsilon"@ {
        Some(933u32)
    } else if name == "Phi"@ {
        Some(934u32)
    } else if name == "Chi"@ {
        Some(935u32)
    } else if name == "Psi"@ {
        Some(936u32)
    } else if name == "Omega"@ {
        Some(937u32)
    } else {
        None
    }
}

fn lookup_greek_capital(name: &str) -> (r: Option<u32>)
    ensures
        r == greek_capital(name@),
        r matches Some(code) ==> 0 < code < 0xD800,
{
    if text_eq(name, "fnof") {
        Some(402)
    } else if text_eq(name, "Alpha") {
        Some(913)
    } else if text_eq(name, "Beta") {
        Some(914)
    } else if text_eq(name, "Gamma") {
        Some(915)
    } else if text_eq(name, "Delta") {
        Some(916)
    } else if text_eq(name, "Epsilon") {
        Some(917)
    } else if text_eq(name, "Zeta") {
        Some(918)
    } else if text_eq(name, "Eta") {
        Some(919)
    } else if text_eq(name, "Theta") {
        Some(920)
    } else if text_eq(name, "Iota") {
        Some(921)
    } else if text_eq(name, "Kappa") {
        Some(922)
    } else if text_eq(name, "Lambda") {
        Some(923)
    } else if text_eq(name, "Mu") {
        Some(924)
    } else if text_eq(name, "Nu") {
        Some(925)
    } else if text_eq(name, "Xi") {
        Some(926)
    } else if text_eq(name, "Omicron") {
        Some(927)
    } else if text_eq(name, "Pi") {
        Some(928)
    } else if text_eq(name, "Rho") {
        Some(929)
    } else if text_eq(name, "Sigma") {
        Some(931)
    } else if text_eq(name, "Tau") {
        Some(932)
    } else if text_eq(name, "Upsilon") {
        Some(933)
    } else if text_eq(name, "Phi") {
        Some(934)
    } else if text_eq(name, "Chi") {
        Some(935)
    } else if text_eq(name, "Psi") {
        Some(936)
    } else if text_eq(name, "Omega") {
        Some(937)
    } else {
        None
    }
}

/// The Greek small letters and letter symbols.
pub open spec fn greek_small(name: Seq<char>) -> Option<u32> {
    if name == "alpha"@ {
        Some(945u32)
    } else if name == "beta"@ {
        Some(946u32)
    } else if name == "gamma"@ {
        Some(947u32)
    } else if name == "delta"@ {
        Some(948u32)
    } else if name == "epsilon"@ {
        Some(949u32)
    } else if name == "zeta"@ {
        Some(950u32)
    } else if name == "eta"@ {
        Some(951u32)
    } else if name == "theta"@ {
        Some(952u32)
    } else if name == "iota"@ {
        Some(953u32)
    } else if name == "kappa"@ {
        Some(954u32)
    } else if name == "lambda"@ {
        Some(955u32)
    } else if name == "mu"@ {
        Some(956u32)
    } else if name == "nu"@ {
        Some(957u32)
    } else if name == "xi"@ {
        Some(958u32)
    } else if name == "omicron"@ {
        Some(959u32)
    } else if name == "pi"@ {
        Some(960u32)
    } else if name == "rho"@ {
        Some(961u32)
    } else if name == "sigmaf"@ {
        Some(962u32)
    } else if name == "sigma"@ {
        Some(963u32)
    } else if name == "tau"@ {
        Some(964u32)
    } else if name == "upsilon"@ {
        Some(965u32)
    } else if name == "phi"@ {
        Some(966u32)
    } else if name == "chi"@ {
        Some(967u32)
    } else if name == "psi"@ {
        Some(968u32)
    } else if name == "omega"@ {
        Some(969u32)
    } else if name == "thetasym"@ {
        Some(977u32)
    } else if name == "upsih"@ {
        Some(978u32)
    } else if name == "piv"@ {
        Some(982u32)
    } else {
        None
    }
}

fn lookup_greek_small(name: &str) -> (r: Option<u32>)
    ensures
        r == greek_small(name@),
        r matches Some(code) ==> 0 < code < 0xD800,
{
    if text_eq(name, "alpha") {
        Some(945)
    } else if text_eq(name, "beta") {
        Some(946)
    } else if text_eq(name, "gamma") {
        Some(947)
    } else if text_eq(name, "delta") {
        Some(948)
    } else if text_eq(name, "epsilon") {
        Some(949)
    } else if text_eq(name, "zeta") {
        Some(950)
    } else if text_eq(name, "eta") {
        Some(951)
    } else if text_eq(name, "theta") {
        Some(952)
    } else if text_eq(name, "iota") {
        Some(953)
    } else if text_eq(name, "kappa") {
        Some(954)
    } else if text_eq(name, "lambda") {
        Some(955)
    } else if text_eq(name, "mu") {
        Some(956)
    } else if text_eq(name, "nu") {
        Some(957)
    } else if text_eq(name, "xi") {
        Some(958)
    } else if text_eq(name, "omicron") {
        Some(959)
    } else if text_eq(name, "pi") {
        Some(960)
    } else if text_eq(name, "rho") {
        Some(961)
    } else if text_eq(name, "sigmaf") {
        Some(962)
    } else if text_eq(name, "sigma") {
        Some(963)
    } else if text_eq(name, "tau") {
        Some(964)
    } else if text_eq(name, "upsilon") {
        Some(965)
    } else if text_eq(name, "phi") {
        Some(966)
    } else if text_eq(name, "chi") {
        Some(967)
    } else if text_eq(name, "psi") {
        Some(968)
    } else if text_eq(name, "omega") {
        Some(969)
    } else if text_eq(name, "thetasym") {
        Some(977)
    } else if text_eq(name, "upsih") {
        Some(978)
    } else if text_eq(name, "piv") {
        Some(982)
    } else {
        None
    }
}

/// General punctuation, letterlike symbols and arrows.
pub open spec fn letterlike_or_arrow(name: Seq<char>) -> Option<u32> {
    if name == "bull"@ {
        Some(8226u32)
    } else if name == "hellip"@ {
        Some(8230u32)
    } else if name == "prime"@ {
        Some(8242u32)
    } else if name == "Prime"@ {
        Some(8243u32)
    } else if name == "oline"@ {
        Some(8254u32)
    } else if name == "frasl"@ {
        Some(8260u32)
    } else if name == "weierp"@ {
        Some(8472u32)
    } else if name == "image"@ {
        Some(8465u32)
    } else if name == "real"@ {
        Some(8476u32)
    } else if name == "trade"@ {
        Some(8482u32)
    } else if name == "alefsym"@ {
        Some(8501u32)
    } else if name == "larr"@ {
        Some(8592u32)
    } else if name == "uarr"@ {
        Some(8593u32)
    } else if name == "rarr"@ {
        Some(8594u32)
    } else if name == "darr"@ {
        Some(8595u32)
    } else if name == "harr"@ {
        Some(8596u32)
    } else if name == "crarr"@ {
        Some(8629u32)
    } else if name == "lArr"@ {
        Some(8656u32)
    } else if name == "uArr"@ {
        Some(8657u32)
    } else if name == "rArr"@ {
        Some(8658u32)
    } else if name == "dArr"@ {
        Some(8659u32)
    } else if name == "hArr"@ {
        Some(8660u32)
    } else {
        None
    }
}

fn lookup_letterlike_or_arrow(name: &str) -> (r: Option<u32>)
    ensures
        r == letterlike_or_arrow(name@),
        r matches Some(code) ==> 0 < code < 0xD800,
{
    if text_eq(name, "bull") {
        Some(8226)
    } else if text_eq(name, "hellip") {
        Some(8230)
    } else if text_eq(name, "prime") {
        Some(8242)
    } else if text_eq(name, "Prime") {
        Some(8243)
    } else if text_eq(name, "oline") {
        Some(8254)
    } else if text_eq(name, "frasl") {
        Some(8260)
    } else if text_eq(name, "weierp") {
        Some(8472)
    } else if text_eq(name, "image") {
        Some(8465)
    } else if text_eq(name, "real") {
        Some(8476)
    } else if text_eq(name, "trade") {
        Some(8482)
    } else if text_eq(name, "alefsym") {
        Some(8501)
    } else if text_eq(name, "larr") {
        Some(8592)
    } else if text_eq(name, "uarr") {
        Some(8593)
    } else if text_eq(name, "rarr") {
        Some(8594)
    } else if text_eq(name, "darr") {
        Some(8595)
    } else if text_eq(name, "harr") {
        Some(8596)
    } else if text_eq(name, "crarr") {
        Some(8629)
    } else if text_eq(name, "lArr") {
        Some(8656)
    } else if text_eq(name, "uArr") {
        Some(8657)
    } else if text_eq(name, "rArr") {
        Some(8658)
    } else if text_eq(name, "dArr") {
        Some(8659)
    } else if text_eq(name, "hArr") {
        Some(8660)
    } else {
        None
    }
}

/// Mathematical operators.
pub open spec fn math_operator(name: Seq<char>) -> Option<u32> {
    if name == "forall"@ {
        Some(8704u32)
    } else if name == "part"@ {
        Some(8706u32)
    } else if name == "exist"@ {
        Some(8707u32)
    } else if name == "empty"@ {
        Some(8709u32)
    } else if name == "nabla"@ {
        Some(8711u32)
    } else if name == "isin"@ {
        Some(8712u32)
    } else if name == "notin"@ {
        Some(8713u32)
    } else if name == "ni"@ {
        Some(8715u32)
    } else if name == "prod"@ {
        Some(8719u32)
    } else if name == "sum"@ {
        Some(8721u32)
    } else if name == "minus"@ {
        Some(8722u32)
    } else if name == "lowast"@ {
        Some(8727u32)
    } else if name == "radic"@ {
        Some(8730u32)
    } else if name == "prop"@ {
        Some(8733u32)
    } else if name == "infin"@ {
        Some(8734u32)
    } else if name == "ang"@ {
        Some(8736u32)
    } else if name == "and"@ {
        Some(8743u32)
    } else if name == "or"@ {
        Some(8744u32)
    } else if name == "cap"@ {
        Some(8745u32)
    } else if name == "cup"@ {
        Some(8746u32)
    } else if name == "int"@ {
        Some(8747u32)
    } else if name == "there4"@ {
        Some(8756u32)
    } else if name == "sim"@ {
        Some(8764u32)
    } else if name == "cong"@ {
        Some(8773u32)
    } else if name == "asymp"@ {
        Some(8776u32)
    } else if name == "ne"@ {
        Some(8800u32)
    } else if name == "equiv"@ {
        Some(8801u32)
    } else if name == "le"@ {
        Some(8804u32)
    } else if name == "ge"@ {
        Some(8805u32)
    } else if name == "sub"@ {
        Some(8834u32)
    } else if name == "sup"@ {
        Some(8835u32)
    } else if name == "nsub"@ {
        Some(8836u32)
    } else if name == "sube"@ {
        Some(8838u32)
    } else if name == "supe"@ {
        Some(8839u32)
    } else if name == "oplus"@ {
        Some(8853u32)
    } else if name == "otimes"@ {
        Some(8855u32)
    } else if name == "perp"@ {
        Some(8869u32)
    } else if name == "sdot"@ {
        Some(8901u32)
    } else {
        None
    }
}

fn lookup_math_operator(name: &str) -> (r: Option<u32>)
    ensures
        r == math_operator(name@),
        r matches Some(code) ==> 0 < code < 0xD800,
{
    if text_eq(name, "forall") {
        Some(8704)
    } else if text_eq(name, "part") {
        Some(8706)
    } else if text_eq(name, "exist") {
        Some(8707)
    } else if text_eq(name, "empty") {
        Some(8709)
    } else if text_eq(name, "nabla") {
        Some(8711)
    } else if text_eq(name, "isin") {
        Some(8712)
    } else if text_eq(name, "notin") {
        Some(8713)
    } else if text_eq(name, "ni") {
        Some(8715)
    } else if text_eq(name, "prod") {
        Some(8719)
    } else if text_eq(name, "sum") {
        Some(8721)
    } else if text_eq(name, "minus") {
        Some(8722)
    } else if text_eq(name, "lowast") {
        Some(8727)
    } else if text_eq(name, "radic") {
        Some(8730)
    } else if text_eq(name, "prop") {
        Some(8733)
    } else if text_eq(name, "infin") {
        Some(8734)
    } else if text_eq(name, "ang") {
        Some(8736)
    } else if text_eq(name, "and") {
        Some(8743)
    } else if text_eq(name, "or") {
        Some(8744)
    } else if text_eq(name, "cap") {
        Some(8745)
    } else if text_eq(name, "cup") {
        Some(8746)
    } else if text_eq(name, "int") {
        Some(8747)
    } else if text_eq(name, "there4") {
        Some(8756)
    } else if text_eq(name, "sim") {
        Some(8764)
    } else if text_eq(name, "cong") {
        Some(8773)
    } else if text_eq(name, "asymp") {
        Some(8776)
    } else if text_eq(name, "ne") {
        Some(8800)
    } else if text_eq(name, "equiv") {
        Some(8801)
    } else if text_eq(name, "le") {
        Some(8804)
    } else if text_eq(name, "ge") {
        Some(8805)
    } else if text_eq(name, "sub") {
        Some(8834)
    } else if text_eq(name, "sup") {
        Some(8835)
    } else if text_eq(name, "nsub") {
        Some(8836)
    } else if text_eq(name, "sube") {
        Some(8838)
    } else if text_eq(name, "supe") {
        Some(8839)
    } else if text_eq(name, "oplus") {
        Some(8853)
    } else if text_eq(name, "otimes") {
        Some(8855)
    } else if text_eq(name, "perp") {
        Some(8869)
    } else if text_eq(name, "sdot") {
        Some(8901)
    } else {
        None
    }
}

/// Brackets, the lozenge and the card suits.
pub open spec fn technical_or_shape(name: Seq<char>) -> Option<u32> {
    if name == "lceil"@ {
        Some(8968u32)
    } else if name == "rceil"@ {
        Some(8969u32)
    } else if name == "lfloor"@ {
        Some(8970u32)
    } else if name == "rfloor"@ {
        Some(8971u32)
    } else if name == "lang"@ {
        Some(9001u32)
    } else if name == "rang"@ {
        Some(9002u32)
    } else if name == "loz"@ {
        Some(9674u32)
    } else if name == "spades"@ {
        Some(9824u32)
    } else if name == "clubs"@ {
        Some(9827u32)
    } else if name == "hearts"@ {
        Some(9829u32)
    } else if name == "diams"@ {
        Some(9830u32)
    } else {
        None
    }
}

fn lookup_technical_or_shape(name: &str) -> (r: Option<u32>)
    ensures
        r == technical_or_shape(name@),
        r matches Some(code) ==> 0 < code < 0xD800,
{
    if text_eq(name, "lceil") {
        Some(8968)
    } else if text_eq(name, "rceil") {
        Some(8969)
    } else if text_eq(name, "lfloor") {
        Some(8970)
    } else if text_eq(name, "rfloor") {
        Some(8971)
    } else if text_eq(name, "lang") {
        Some(9001)
    } else if text_eq(name, "rang") {
        Some(9002)
    } else if text_eq(name, "loz") {
        Some(9674)
    } else if text_eq(name, "spades") {
        Some(9824)
    } else if text_eq(name, "clubs") {
        Some(9827)
    } else if text_eq(name, "hearts") {
        Some(9829)
    } else if text_eq(name, "diams") {
        Some(9830)
    } else {
        None
    }
}

/// The characters that markup reserves, Latin Extended letters, spaces, dashes and quotation marks.
pub open spec fn markup_or_typographic(name: Seq<char>) -> Option<u32> {
    if name == "quot"@ {
        Some(34u32)
    } else if name == "amp"@ {
        Some(38u32)
    } else if name == "lt"@ {
        Some(60u32)
    } else if name == "gt"@ {
        Some(62u32)
    } else if name == "OElig"@ {
        Some(338u32)
    } else if name == "oelig"@ {
        Some(339u32)
    } else if name == "Scaron"@ {
        Some(352u32)
    } else if name == "scaron"@ {
        Some(353u32)
    } else if name == "Yuml"@ {
        Some(376u32)
    } else if name == "circ"@ {
        Some(710u32)
    } else if name == "tilde"@ {
        Some(732u32)
    } else if name == "ensp"@ {
        Some(8194u32)
    } else if name == "emsp"@ {
        Some(8195u32)
    } else if name == "thinsp"@ {
        Some(8201u32)
    } else if name == "zwnj"@ {
        Some(8204u32)
    } else if name == "zwj"@ {
        Some(8205u32)
    } else if name == "lrm"@ {
        Some(8206u32)
    } else if name == "rlm"@ {
        Some(8207u32)
    } else if name == "ndash"@ {
        Some(8211u32)
    } else if name == "mdash"@ {
        Some(8212u32)
    } else if name == "lsquo"@ {
        Some(8216u32)
    } else if name == "rsquo"@ {
        Some(8217u32)
    } else if name == "sbquo"@ {
        Some(8218u32)
    } else if name == "ldquo"@ {
        Some(8220u32)
    } else if name == "rdquo"@ {
        Some(8221u32)
    } else if name == "bdquo"@ {
        Some(8222u32)
    } else if name == "dagger"@ {
        Some(8224u32)
    } else if name == "Dagger"@ {
        Some(8225u32)
    } else if name == "permil"@ {
        Some(8240u32)
    } else if name == "lsaquo"@ {
        Some(8249u32)
    } else if name == "rsaquo"@ {
        Some(8250u32)
    } else if name == "euro"@ {
        Some(8364u32)
    } else {
        None
    }
}

fn lookup_markup_or_typographic(name: &str) -> (r: Option<u32>)
    ensures
        r == markup_or_typographic(name@),
        r matches Some(code) ==> 0 < code < 0xD800,
{
    if text_eq(name, "quot") {
        Some(34)
    } else if text_eq(name, "amp") {
        Some(38)
    } else if text_eq(name, "lt") {
        Some(60)
    } else if text_eq(name, "gt") {
        Some(62)
    } else if text_eq(name, "OElig") {
        Some(338)
    } else if text_eq(name, "oelig") {
        Some(339)
    } else if text_eq(name, "Scaron") {
        Some(352)
    } else if text_eq(name, "scaron") {
        Some(353)
    } else if text_eq(name, "Yuml") {
        Some(376)
    } else if text_eq(name, "circ") {
        Some(710)
    } else if text_eq(name, "tilde") {
        Some(732)
    } else if text_eq(name, "ensp") {
        Some(8194)
    } else if text_eq(name, "emsp") {
        Some(8195)
    } else if text_eq(name, "thinsp") {
        Some(8201)
    } else if text_eq(name, "zwnj") {
        Some(8204)
    } else if text_eq(name, "zwj") {
        Some(8205)
    } else if text_eq(name, "lrm") {
        Some(8206)
    } else if text_eq(name, "rlm") {
        Some(8207)
    } else if text_eq(name, "ndash") {
        Some(8211)
    } else if text_eq(name, "mdash") {
        Some(8212)
    } else if text_eq(name, "lsquo") {
        Some(8216)
    } else if text_eq(name, "rsquo") {
        Some(8217)
    } else if text_eq(name, "sbquo") {
        Some(8218)
    } else if text_eq(name, "ldquo") {
        Some(8220)
    } else if text_eq(name, "rdquo") {
        Some(8221)
    } else if text_eq(name, "bdquo") {
        Some(8222)
    } else if text_eq(name, "dagger") {
        Some(8224)
    } else if text_eq(name, "Dagger") {
        Some(8225)
    } else if text_eq(name, "permil") {
        Some(8240)
    } else if text_eq(name, "lsaquo") {
        Some(8249)
    } else if text_eq(name, "rsaquo") {
        Some(8250)
    } else if text_eq(name, "euro") {
        Some(8364)
    } else {
        None
    }
}
/// The code point that a named character reference stands for.
pub open spec fn entity_code(name: Seq<char>) -> Option<u32> {
    if latin1_symbol(name) is Some {
        latin1_symbol(name)
    } else if latin1_capital(name) is Some {
        latin1_capital(name)
    } else if latin1_small(name) is Some {
        latin1_small(name)
    } else if greek_capital(name) is Some {
        greek_capital(name)
    } else if greek_small(name) is Some {
        greek_small(name)
    } else if letterlike_or_arrow(name) is Some {
        letterlike_or_arrow(name)
    } else if math_operator(name) is Some {
        math_operator(name)
    } else if technical_or_shape(name) is Some {
        technical_or_shape(name)
    } else {
        markup_or_typographic(name)
    }
}

/// The code point of a named character reference, which is never a surrogate.
pub fn lookup_entity_code(name: &str) -> (r: Option<u32>)
    ensures
        r == entity_code(name@),
        r matches Some(code) ==> 0 < code < 0xD800,
{
    let mut found = lookup_latin1_symbol(name);
    if found.is_none() {
        found = lookup_latin1_capital(name);
    }
    if found.is_none() {
        found = lookup_latin1_small(name);
    }
    if found.is_none() {
        found = lookup_greek_capital(name);
    }
    if found.is_none() {
        found = lookup_greek_small(name);
    }
    if found.is_none() {
        found = lookup_letterlike_or_arrow(name);
    }
    if found.is_none() {
        found = lookup_math_operator(name);
    }
    if found.is_none() {
        found = lookup_technical_or_shape(name);
    }
    if found.is_none() {
        found = lookup_markup_or_typographic(name);
    }
    found
}

} // verus!
