//! The names of the hand-written cases, in the order in which they are
//! run, and the proof that no two of them are alike and that none of them
//! begins like the name of a generated case.
//!
//! Names are told apart by their stamp: a number made of the length of a
//! name and of a few of its letters. The stamps of all the names are
//! listed beside them; no stamp stands twice in that list, so no name
//! does.

use crate::text::starts_with;
use vstd::prelude::*;

verus! {

/// The names of cases 1 to 24.
pub open spec fn names_1() -> Seq<Seq<char>> {
    seq![
        "single file"@,
        "multiple files"@,
        "stdin only"@,
        "dash operand"@,
        "dash filename"@,
        "-n option"@,
        "-n across files"@,
        "-E option"@,
        "-T option (file)"@,
        "-T option (stdin)"@,
        "-E option large"@,
        "-E option huge"@,
        "-T fifo fast path"@,
        "-nET combo"@,
        "-EnT combo order"@,
        "stdin numbered"@,
        "empty file"@,
        "no newline + -E"@,
        "large file streaming"@,
        "-n large file"@,
        "dash filename with numbering"@,
        "bundle -nb"@,
        "bundle -bn"@,
        "bundle -ns"@,
    ]
}

/// The names of cases 25 to 48.
pub open spec fn names_2() -> Seq<Seq<char>> {
    seq![
        "bundle -sn"@,
        "-n empty file"@,
        "-b empty file"@,
        "-s empty file"@,
        "-v with tabs file"@,
        "-T with no tabs"@,
        "-E with tabs file"@,
        "-A with tabs file"@,
        "-e with no newline"@,
        "-t with tabs via stdin"@,
        "-b option"@,
        "-s option"@,
        "-v option"@,
        "-A shortcut"@,
        "-e shortcut"@,
        "-t shortcut"@,
        "-u option"@,
        "bundled options -bnEs"@,
        "option-like operand after file"@,
        "-- stops option parsing"@,
        "-- mid-argv parsing"@,
        "stdin then option-like operand"@,
        "multiple -- markers"@,
        "redundant -n flags"@,
    ]
}

/// The names of cases 49 to 72.
pub open spec fn names_3() -> Seq<Seq<char>> {
    seq![
        "options after operand parsed"@,
        "long option after operand"@,
        "long option stdin"@,
        "long options"@,
        "option permutation mixed"@,
        "option permutation stdin"@,
        "double dash no operands"@,
        "invalid long option"@,
        "invalid long option equals"@,
        "unknown long option equals"@,
        "long option disallow arg"@,
        "huge file numbering"@,
        "binary passthrough"@,
        "plain stdout fifo fast path"@,
        "-n fifo fast path"@,
        "-v fifo fast path"@,
        "fifo streaming"@,
        "--help switch"@,
        "--version switch"@,
        "--help stdout closed"@,
        "ENOENT vs EACCES messaging"@,
        "directory operand error"@,
        "very long path ENAMETOOLONG"@,
        "missing file error"@,
    ]
}

/// The names of cases 73 to 96.
pub open spec fn names_4() -> Seq<Seq<char>> {
    seq![
        "missing among files"@,
        "bad option error"@,
        "-bs combo"@,
        "-- then -n filename"@,
        "-nT combo"@,
        "stdin huge numbering"@,
        "stdin empty"@,
        "dash file before options"@,
        "literal dash filename"@,
        "double stdin operands"@,
        "stdin via -- then file"@,
        "broken pipe write error"@,
        "fifo decorated -vE"@,
        "binary passthrough pipe"@,
        "mixed stdin and file numbering"@,
        "no newline + -n"@,
        "no newline + -b"@,
        "-s with no blanks"@,
        "combo -ns across files"@,
        "binary with -v"@,
        "binary with -A"@,
        "visible DEL"@,
        "line state across files"@,
        "squeeze across files"@,
    ]
}

/// The names of cases 97 to 120.
pub open spec fn names_5() -> Seq<Seq<char>> {
    seq![
        "number nonblank across files"@,
        "squeeze + no newline boundary"@,
        "large line numbers"@,
        "combo -nE"@,
        "combo -bE"@,
        "combo -bT"@,
        "combo -sE"@,
        "combo -sT"@,
        "combo -A -s"@,
        "combo -e -s"@,
        "combo -t -s"@,
        "order -b then -n"@,
        "order -n then -b"@,
        "order --number then --number-nonblank"@,
        "order --number-nonblank then --number"@,
        "order -s then -n"@,
        "order -n then -s"@,
        "order -E then -T"@,
        "order -T then -E"@,
        "combo -nsvE"@,
        "combo -bsvE"@,
        "file named --help with --"@,
        "file named --version with --"@,
        "double dash then dash"@,
    ]
}

/// The names of cases 121 to 144.
pub open spec fn names_6() -> Seq<Seq<char>> {
    seq![
        "stdin with option between dashes"@,
        "space in filename"@,
        "multiple stdin operands with options"@,
        "ENOTDIR path"@,
        "ELOOP symlink"@,
        "directory operand with -n"@,
        "directory operand with -v"@,
        "missing file with -n"@,
        "missing file with -v among files"@,
        "visible CR"@,
        "visible NUL"@,
        "visible 0xFF"@,
        "tabs without newline -T"@,
        "tabs without newline -A"@,
        "long line no newline -n"@,
        "only newlines file -s"@,
        "stdin only newlines -s"@,
        "stdin empty with -n"@,
        "binary with -T"@,
        "binary with -E"@,
        "fifo squeeze blank"@,
        "fifo show ends"@,
        "fifo numbered show ends"@,
        "--show-ends stdin"@,
    ]
}

/// The names of cases 145 to 168.
pub open spec fn names_7() -> Seq<Seq<char>> {
    seq![
        "--show-tabs stdin"@,
        "--show-nonprinting stdin"@,
        "--show-all stdin"@,
        "--number-nonblank stdin"@,
        "--squeeze-blank stdin"@,
        "repeat -n"@,
        "--number --show-ends"@,
        "--number --show-tabs"@,
        "--number --show-nonprinting"@,
        "--number --show-all"@,
        "--number-nonblank --show-ends"@,
        "--number-nonblank --show-tabs"@,
        "--number-nonblank --show-nonprinting"@,
        "--number-nonblank --show-all"@,
        "--squeeze-blank --number"@,
        "--squeeze-blank --number-nonblank"@,
        "--squeeze-blank --show-ends"@,
        "--squeeze-blank --show-tabs"@,
        "--squeeze-blank --show-nonprinting"@,
        "--squeeze-blank --show-all"@,
        "stdin + file --number"@,
        "stdin + file --number-nonblank"@,
        "stdin + file --show-ends"@,
        "stdin + file --show-tabs"@,
    ]
}

/// The names of cases 169 to 192.
pub open spec fn names_8() -> Seq<Seq<char>> {
    seq![
        "stdin + file --show-nonprinting"@,
        "stdin + file --show-all"@,
        "number across empty then data"@,
        "number-nonblank across empty then data"@,
        "squeeze across empty then blank"@,
        "show-ends across no-newline then file"@,
        "number across no-newline then file"@,
        "number-nonblank across no-newline then file"@,
        "symlink to file"@,
        "symlink to directory"@,
        "hardlink to file"@,
        "dev null operand"@,
        "fifo number nonblank"@,
        "file named --show-ends with --"@,
        "crlf file -E"@,
        "crlf file -v"@,
        "tabs + control -A"@,
        "utf8 bytes -v"@,
        "nul file -A"@,
        "redundant --number -n"@,
        "redundant --number-nonblank -b"@,
        "redundant --squeeze-blank -s"@,
        "redundant --show-ends -E"@,
        "redundant --show-tabs -T"@,
    ]
}

/// The names of cases 193 to 216.
pub open spec fn names_9() -> Seq<Seq<char>> {
    seq![
        "redundant --show-nonprinting -v"@,
        "redundant --show-all -A"@,
        "combo -e -t"@,
        "combo -t -e"@,
        "combo -e -n"@,
        "combo -t -n"@,
        "combo -e -b"@,
        "combo -t -b"@,
        "combo -u -n"@,
        "combo -u -b"@,
        "combo -u -s"@,
        "combo -u -v"@,
        "combo -u --show-all"@,
        "file stdin file --number"@,
        "file stdin file --number-nonblank"@,
        "file stdin file --squeeze-blank"@,
        "file stdin file --show-ends"@,
        "file stdin file --show-tabs"@,
        "file stdin file --show-all"@,
        "file named --number with --"@,
        "file named --show-tabs with --"@,
        "file named --squeeze-blank with --"@,
        "file named -e with --"@,
        "file named -- with -n"@,
    ]
}

/// The names of cases 217 to 240.
pub open spec fn names_10() -> Seq<Seq<char>> {
    seq![
        "file named --number with -n"@,
        "stdin -A tabs"@,
        "stdin -b blanks"@,
        "stdin -nE blanks"@,
        "stdin -bE blanks"@,
        "stdin -sE blanks"@,
        "stdin -v binary"@,
        "stdin --show-ends no newline"@,
        "crlf file -A"@,
        "trailing spaces -E"@,
        "leading blanks -b"@,
        "only tabs -T"@,
        "tabs + blanks -sT"@,
        "squeeze across three files"@,
        "no newline + -A"@,
        "visible formfeed"@,
        "symlink chain"@,
        "relative symlink"@,
        "fifo show all"@,
        "fifo show tabs and ends"@,
        "directory operand with -E"@,
        "redundant --show-ends --show-ends"@,
        "long combo --show-nonprinting --show-ends"@,
        "long combo --show-nonprinting --show-tabs"@,
    ]
}

/// The names of cases 241 to 264.
pub open spec fn names_11() -> Seq<Seq<char>> {
    seq![
        "long combo --show-all --number"@,
        "long combo --show-all --number-nonblank"@,
        "long combo --show-tabs --number"@,
        "combo -A -n"@,
        "combo -A -b"@,
        "stdin -A control"@,
        "--show-ends with -n"@,
        "--show-tabs with -n"@,
        "--show-nonprinting with -n"@,
        "--show-all with -n"@,
        "--show-ends with -b"@,
        "--show-tabs with -b"@,
        "--show-nonprinting with -b"@,
        "--show-all with -b"@,
        "-s with --number"@,
        "-s with --number-nonblank"@,
        "-s with --show-ends"@,
        "-s with --show-tabs"@,
        "-s with --show-nonprinting"@,
        "-s with --show-all"@,
        "double stdin --number"@,
        "--show-nonprinting binary"@,
        "--show-all binary"@,
        "--show-tabs with no tabs"@,
    ]
}

/// The names of cases 265 to 281.
pub open spec fn names_12() -> Seq<Seq<char>> {
    seq![
        "--show-ends no newline file"@,
        "--number empty file"@,
        "--number-nonblank empty file"@,
        "--squeeze-blank empty file"@,
        "--show-all empty file"@,
        "--show-nonprinting empty file"@,
        "only newlines file -b"@,
        "stdin only newlines -b"@,
        "only newlines file -n"@,
        "stdin only newlines -n"@,
        "stdin only newlines --number-nonblank"@,
        "stdin only newlines --show-ends"@,
        "file named -A with --"@,
        "file named --show-all with --"@,
        "file named --show-nonprinting with --"@,
        "bad option bundle"@,
        "process asm keeps comment-only lines"@,
    ]
}

/// The names of the hand-written cases, in the order in which they are
/// run.
pub open spec fn hand_written_names() -> Seq<Seq<char>> {
    names_1() + names_2() + names_3() + names_4() + names_5() + names_6()
        + names_7() + names_8() + names_9() + names_10() + names_11() + names_12()
}

/// The letter of `name` at place `at`, as a number; a blank where the
/// name has no such place.
pub open spec fn letter(name: Seq<char>, at: int) -> int {
    if 0 <= at < name.len() {
        name[at] as int
    } else {
        ' ' as int
    }
}

/// The stamp of a name: its length, five of its letters and its last two,
/// each with a weight.
pub open spec fn stamp(name: Seq<char>) -> int {
    11 * name.len() + 12 * letter(name, 0) + letter(name, 1) + 18 * letter(name, 7)
        + 15 * letter(name, 12) + 18 * letter(name, 18) + 4 * letter(name, name.len() - 2)
        + 22 * letter(name, name.len() - 1)
}

/// Whether the first two letters of `name` are those of a generated name.
pub open spec fn begins_like_generated(name: Seq<char>) -> bool {
    letter(name, 0) == 'm' as int && letter(name, 1) == 'a' as int
}

/// The stamps of the names of cases 1 to 24.
pub open spec fn stamps_1() -> Seq<int> {
    seq![
        7152, 8422, 7736, 6943, 8133, 6667, 8015, 6626, 6255, 6467, 7692, 7516,
        5195, 6612, 7945, 8451, 7031, 6240, 9929, 7356, 8346, 5865, 6081, 6239,
    ]
}

/// The stamps of the names of cases 25 to 48.
pub open spec fn stamps_2() -> Seq<int> {
    seq![
        6149, 7716, 7704, 7721, 5131, 6318, 5082, 5078, 6168, 6882, 6655, 6672,
        6675, 6890, 6926, 6941, 6674, 8551, 9837, 9241, 8780, 9962, 10143, 7645,
    ]
}

/// The stamps of the names of cases 49 to 72.
pub open spec fn stamps_3() -> Seq<int> {
    seq![
        8388, 9863, 8823, 7653, 8644, 8880, 9996, 7479, 7654, 7798, 9979, 9713,
        8331, 8905, 5221, 5229, 8467, 7618, 7594, 9037, 8845, 9895, 8794, 6195,
    ]
}

/// The stamps of the names of cases 73 to 96.
pub open spec fn stamps_4() -> Seq<int> {
    seq![
        8747, 8577, 6391, 7421, 6403, 10263, 7761, 10021, 7092, 9002, 8598, 10114,
        7390, 8356, 9936, 7142, 6878, 6572, 10055, 7604, 6438, 5222, 9655, 8766,
    ]
}

/// The stamps of the names of cases 97 to 120.
pub open spec fn stamps_5() -> Seq<int> {
    seq![
        10166, 7966, 8798, 6392, 6128, 6458, 6502, 6832, 6356, 7004, 7274, 8212,
        8164, 8952, 8854, 8518, 8538, 7118, 7058, 6446, 6230, 7553, 7442, 9576,
    ]
}

/// The stamps of the names of cases 121 to 144.
pub open spec fn stamps_6() -> Seq<int> {
    seq![
        10116, 8408, 10236, 5422, 8200, 9889, 10065, 6099, 6565, 5335, 5286, 5105,
        8318, 7900, 8700, 8826, 10013, 10032, 6856, 6526, 7483, 8487, 8550, 7731,
    ]
}

/// The stamps of the names of cases 145 to 168.
pub open spec fn stamps_7() -> Seq<int> {
    seq![
        8001, 7820, 7663, 9270, 9107, 6034, 9147, 9103, 9180, 9158, 8166, 8158,
        8019, 8033, 9392, 9373, 9533, 9525, 9386, 9400, 7459, 7440, 7888, 7880,
    ]
}

/// The stamps of the names of cases 169 to 192.
pub open spec fn stamps_8() -> Seq<int> {
    seq![
        7741, 7755, 10003, 9940, 9017, 10053, 9754, 10051, 7047, 9042, 8207, 8347,
        9935, 7284, 6132, 7210, 7309, 8873, 6042, 8506, 8575, 10010, 9116, 9212,
    ]
}

/// The stamps of the names of cases 193 to 216.
pub open spec fn stamps_9() -> Seq<int> {
    seq![
        10289, 8981, 7026, 6966, 6894, 7164, 6630, 6900, 7182, 6918, 7292, 7358,
        9926, 9860, 9841, 9909, 10001, 9993, 9868, 7485, 7554, 7706, 6783, 7373,
    ]
}

/// The stamps of the names of cases 217 to 240.
pub open spec fn stamps_10() -> Seq<int> {
    seq![
        8915, 8032, 8609, 8641, 8425, 8731, 8934, 7931, 6044, 7317, 6677, 6422,
        8049, 8832, 6152, 6983, 7286, 8453, 8474, 8556, 8987, 10447, 9405, 9397,
    ]
}

/// The stamps of the names of cases 241 to 264.
pub open spec fn stamps_11() -> Seq<int> {
    seq![
        9032, 9013, 9385, 6246, 5982, 7978, 8977, 9247, 7602, 7280, 8497, 8767,
        7338, 7016, 6530, 7933, 8105, 8097, 7904, 6478, 8768, 8109, 7787, 9642,
    ]
}

/// The stamps of the names of cases 265 to 281.
pub open spec fn stamps_12() -> Seq<int> {
    seq![
        8948, 9058, 8887, 9192, 8741, 7689, 8452, 9639, 8716, 9903, 10262, 10332,
        6243, 7201, 7523, 8335, 8751,
    ]
}

/// The stamps of the names of the hand-written cases, in the order of the
/// names.
pub open spec fn stamps() -> Seq<int> {
    stamps_1() + stamps_2() + stamps_3() + stamps_4() + stamps_5() + stamps_6()
        + stamps_7() + stamps_8() + stamps_9() + stamps_10() + stamps_11() + stamps_12()
}

/// `names` have the stamps `stamps`, and none begins like a generated
/// name.
pub open spec fn stamped_as(names: Seq<Seq<char>>, stamps: Seq<int>) -> bool {
    &&& names.len() == stamps.len()
    &&& forall|k: int|
        0 <= k < names.len() ==> stamp(#[trigger] names[k]) == stamps[k] && !begins_like_generated(
            names[k],
        )
}

/// The names of cases 1 to 24 have the stamps listed for them.
proof fn lemma_stamps_1()
    ensures
        stamped_as(names_1(), stamps_1()),
{
    reveal_strlit("single file");
    reveal_strlit("multiple files");
    reveal_strlit("stdin only");
    reveal_strlit("dash operand");
    reveal_strlit("dash filename");
    reveal_strlit("-n option");
    reveal_strlit("-n across files");
    reveal_strlit("-E option");
    reveal_strlit("-T option (file)");
    reveal_strlit("-T option (stdin)");
    reveal_strlit("-E option large");
    reveal_strlit("-E option huge");
    reveal_strlit("-T fifo fast path");
    reveal_strlit("-nET combo");
    reveal_strlit("-EnT combo order");
    reveal_strlit("stdin numbered");
    reveal_strlit("empty file");
    reveal_strlit("no newline + -E");
    reveal_strlit("large file streaming");
    reveal_strlit("-n large file");
    reveal_strlit("dash filename with numbering");
    reveal_strlit("bundle -nb");
    reveal_strlit("bundle -bn");
    reveal_strlit("bundle -ns");
}

/// The names of cases 25 to 48 have the stamps listed for them.
proof fn lemma_stamps_2()
    ensures
        stamped_as(names_2(), stamps_2()),
{
    reveal_strlit("bundle -sn");
    reveal_strlit("-n empty file");
    reveal_strlit("-b empty file");
    reveal_strlit("-s empty file");
    reveal_strlit("-v with tabs file");
    reveal_strlit("-T with no tabs");
    reveal_strlit("-E with tabs file");
    reveal_strlit("-A with tabs file");
    reveal_strlit("-e with no newline");
    reveal_strlit("-t with tabs via stdin");
    reveal_strlit("-b option");
    reveal_strlit("-s option");
    reveal_strlit("-v option");
    reveal_strlit("-A shortcut");
    reveal_strlit("-e shortcut");
    reveal_strlit("-t shortcut");
    reveal_strlit("-u option");
    reveal_strlit("bundled options -bnEs");
    reveal_strlit("option-like operand after file");
    reveal_strlit("-- stops option parsing");
    reveal_strlit("-- mid-argv parsing");
    reveal_strlit("stdin then option-like operand");
    reveal_strlit("multiple -- markers");
    reveal_strlit("redundant -n flags");
}

/// The names of cases 49 to 72 have the stamps listed for them.
proof fn lemma_stamps_3()
    ensures
        stamped_as(names_3(), stamps_3()),
{
    reveal_strlit("options after operand parsed");
    reveal_strlit("long option after operand");
    reveal_strlit("long option stdin");
    reveal_strlit("long options");
    reveal_strlit("option permutation mixed");
    reveal_strlit("option permutation stdin");
    reveal_strlit("double dash no operands");
    reveal_strlit("invalid long option");
    reveal_strlit("invalid long option equals");
    reveal_strlit("unknown long option equals");
    reveal_strlit("long option disallow arg");
    reveal_strlit("huge file numbering");
    reveal_strlit("binary passthrough");
    reveal_strlit("plain stdout fifo fast path");
    reveal_strlit("-n fifo fast path");
    reveal_strlit("-v fifo fast path");
    reveal_strlit("fifo streaming");
    reveal_strlit("--help switch");
    reveal_strlit("--version switch");
    reveal_strlit("--help stdout closed");
    reveal_strlit("ENOENT vs EACCES messaging");
    reveal_strlit("directory operand error");
    reveal_strlit("very long path ENAMETOOLONG");
    reveal_strlit("missing file error");
}

/// The names of cases 73 to 96 have the stamps listed for them.
proof fn lemma_stamps_4()
    ensures
        stamped_as(names_4(), stamps_4()),
{
    reveal_strlit("missing among files");
    reveal_strlit("bad option error");
    reveal_strlit("-bs combo");
    reveal_strlit("-- then -n filename");
    reveal_strlit("-nT combo");
    reveal_strlit("stdin huge numbering");
    reveal_strlit("stdin empty");
    reveal_strlit("dash file before options");
    reveal_strlit("literal dash filename");
    reveal_strlit("double stdin operands");
    reveal_strlit("stdin via -- then file");
    reveal_strlit("broken pipe write error");
    reveal_strlit("fifo decorated -vE");
    reveal_strlit("binary passthrough pipe");
    reveal_strlit("mixed stdin and file numbering");
    reveal_strlit("no newline + -n");
    reveal_strlit("no newline + -b");
    reveal_strlit("-s with no blanks");
    reveal_strlit("combo -ns across files");
    reveal_strlit("binary with -v");
    reveal_strlit("binary with -A");
    reveal_strlit("visible DEL");
    reveal_strlit("line state across files");
    reveal_strlit("squeeze across files");
}

/// The names of cases 97 to 120 have the stamps listed for them.
proof fn lemma_stamps_5()
    ensures
        stamped_as(names_5(), stamps_5()),
{
    reveal_strlit("number nonblank across files");
    reveal_strlit("squeeze + no newline boundary");
    reveal_strlit("large line numbers");
    reveal_strlit("combo -nE");
    reveal_strlit("combo -bE");
    reveal_strlit("combo -bT");
    reveal_strlit("combo -sE");
    reveal_strlit("combo -sT");
    reveal_strlit("combo -A -s");
    reveal_strlit("combo -e -s");
    reveal_strlit("combo -t -s");
    reveal_strlit("order -b then -n");
    reveal_strlit("order -n then -b");
    reveal_strlit("order --number then --number-nonblank");
    reveal_strlit("order --number-nonblank then --number");
    reveal_strlit("order -s then -n");
    reveal_strlit("order -n then -s");
    reveal_strlit("order -E then -T");
    reveal_strlit("order -T then -E");
    reveal_strlit("combo -nsvE");
    reveal_strlit("combo -bsvE");
    reveal_strlit("file named --help with --");
    reveal_strlit("file named --version with --");
    reveal_strlit("double dash then dash");
}

/// The names of cases 121 to 144 have the stamps listed for them.
proof fn lemma_stamps_6()
    ensures
        stamped_as(names_6(), stamps_6()),
{
    reveal_strlit("stdin with option between dashes");
    reveal_strlit("space in filename");
    reveal_strlit("multiple stdin operands with options");
    reveal_strlit("ENOTDIR path");
    reveal_strlit("ELOOP symlink");
    reveal_strlit("directory operand with -n");
    reveal_strlit("directory operand with -v");
    reveal_strlit("missing file with -n");
    reveal_strlit("missing file with -v among files");
    reveal_strlit("visible CR");
    reveal_strlit("visible NUL");
    reveal_strlit("visible 0xFF");
    reveal_strlit("tabs without newline -T");
    reveal_strlit("tabs without newline -A");
    reveal_strlit("long line no newline -n");
    reveal_strlit("only newlines file -s");
    reveal_strlit("stdin only newlines -s");
    reveal_strlit("stdin empty with -n");
    reveal_strlit("binary with -T");
    reveal_strlit("binary with -E");
    reveal_strlit("fifo squeeze blank");
    reveal_strlit("fifo show ends");
    reveal_strlit("fifo numbered show ends");
    reveal_strlit("--show-ends stdin");
}

/// The names of cases 145 to 168 have the stamps listed for them.
proof fn lemma_stamps_7()
    ensures
        stamped_as(names_7(), stamps_7()),
{
    reveal_strlit("--show-tabs stdin");
    reveal_strlit("--show-nonprinting stdin");
    reveal_strlit("--show-all stdin");
    reveal_strlit("--number-nonblank stdin");
    reveal_strlit("--squeeze-blank stdin");
    reveal_strlit("repeat -n");
    reveal_strlit("--number --show-ends");
    reveal_strlit("--number --show-tabs");
    reveal_strlit("--number --show-nonprinting");
    reveal_strlit("--number --show-all");
    reveal_strlit("--number-nonblank --show-ends");
    reveal_strlit("--number-nonblank --show-tabs");
    reveal_strlit("--number-nonblank --show-nonprinting");
    reveal_strlit("--number-nonblank --show-all");
    reveal_strlit("--squeeze-blank --number");
    reveal_strlit("--squeeze-blank --number-nonblank");
    reveal_strlit("--squeeze-blank --show-ends");
    reveal_strlit("--squeeze-blank --show-tabs");
    reveal_strlit("--squeeze-blank --show-nonprinting");
    reveal_strlit("--squeeze-blank --show-all");
    reveal_strlit("stdin + file --number");
    reveal_strlit("stdin + file --number-nonblank");
    reveal_strlit("stdin + file --show-ends");
    reveal_strlit("stdin + file --show-tabs");
}

/// The names of cases 169 to 192 have the stamps listed for them.
proof fn lemma_stamps_8()
    ensures
        stamped_as(names_8(), stamps_8()),
{
    reveal_strlit("stdin + file --show-nonprinting");
    reveal_strlit("stdin + file --show-all");
    reveal_strlit("number across empty then data");
    reveal_strlit("number-nonblank across empty then data");
    reveal_strlit("squeeze across empty then blank");
    reveal_strlit("show-ends across no-newline then file");
    reveal_strlit("number across no-newline then file");
    reveal_strlit("number-nonblank across no-newline then file");
    reveal_strlit("symlink to file");
    reveal_strlit("symlink to directory");
    reveal_strlit("hardlink to file");
    reveal_strlit("dev null operand");
    reveal_strlit("fifo number nonblank");
    reveal_strlit("file named --show-ends with --");
    reveal_strlit("crlf file -E");
    reveal_strlit("crlf file -v");
    reveal_strlit("tabs + control -A");
    reveal_strlit("utf8 bytes -v");
    reveal_strlit("nul file -A");
    reveal_strlit("redundant --number -n");
    reveal_strlit("redundant --number-nonblank -b");
    reveal_strlit("redundant --squeeze-blank -s");
    reveal_strlit("redundant --show-ends -E");
    reveal_strlit("redundant --show-tabs -T");
}

/// The names of cases 193 to 216 have the stamps listed for them.
proof fn lemma_stamps_9()
    ensures
        stamped_as(names_9(), stamps_9()),
{
    reveal_strlit("redundant --show-nonprinting -v");
    reveal_strlit("redundant --show-all -A");
    reveal_strlit("combo -e -t");
    reveal_strlit("combo -t -e");
    reveal_strlit("combo -e -n");
    reveal_strlit("combo -t -n");
    reveal_strlit("combo -e -b");
    reveal_strlit("combo -t -b");
    reveal_strlit("combo -u -n");
    reveal_strlit("combo -u -b");
    reveal_strlit("combo -u -s");
    reveal_strlit("combo -u -v");
    reveal_strlit("combo -u --show-all");
    reveal_strlit("file stdin file --number");
    reveal_strlit("file stdin file --number-nonblank");
    reveal_strlit("file stdin file --squeeze-blank");
    reveal_strlit("file stdin file --show-ends");
    reveal_strlit("file stdin file --show-tabs");
    reveal_strlit("file stdin file --show-all");
    reveal_strlit("file named --number with --");
    reveal_strlit("file named --show-tabs with --");
    reveal_strlit("file named --squeeze-blank with --");
    reveal_strlit("file named -e with --");
    reveal_strlit("file named -- with -n");
}

/// The names of cases 217 to 240 have the stamps listed for them.
proof fn lemma_stamps_10()
    ensures
        stamped_as(names_10(), stamps_10()),
{
    reveal_strlit("file named --number with -n");
    reveal_strlit("stdin -A tabs");
    reveal_strlit("stdin -b blanks");
    reveal_strlit("stdin -nE blanks");
    reveal_strlit("stdin -bE blanks");
    reveal_strlit("stdin -sE blanks");
    reveal_strlit("stdin -v binary");
    reveal_strlit("stdin --show-ends no newline");
    reveal_strlit("crlf file -A");
    reveal_strlit("trailing spaces -E");
    reveal_strlit("leading blanks -b");
    reveal_strlit("only tabs -T");
    reveal_strlit("tabs + blanks -sT");
    reveal_strlit("squeeze across three files");
    reveal_strlit("no newline + -A");
    reveal_strlit("visible formfeed");
    reveal_strlit("symlink chain");
    reveal_strlit("relative symlink");
    reveal_strlit("fifo show all");
    reveal_strlit("fifo show tabs and ends");
    reveal_strlit("directory operand with -E");
    reveal_strlit("redundant --show-ends --show-ends");
    reveal_strlit("long combo --show-nonprinting --show-ends");
    reveal_strlit("long combo --show-nonprinting --show-tabs");
}

/// The names of cases 241 to 264 have the stamps listed for them.
proof fn lemma_stamps_11()
    ensures
        stamped_as(names_11(), stamps_11()),
{
    reveal_strlit("long combo --show-all --number");
    reveal_strlit("long combo --show-all --number-nonblank");
    reveal_strlit("long combo --show-tabs --number");
    reveal_strlit("combo -A -n");
    reveal_strlit("combo -A -b");
    reveal_strlit("stdin -A control");
    reveal_strlit("--show-ends with -n");
    reveal_strlit("--show-tabs with -n");
    reveal_strlit("--show-nonprinting with -n");
    reveal_strlit("--show-all with -n");
    reveal_strlit("--show-ends with -b");
    reveal_strlit("--show-tabs with -b");
    reveal_strlit("--show-nonprinting with -b");
    reveal_strlit("--show-all with -b");
    reveal_strlit("-s with --number");
    reveal_strlit("-s with --number-nonblank");
    reveal_strlit("-s with --show-ends");
    reveal_strlit("-s with --show-tabs");
    reveal_strlit("-s with --show-nonprinting");
    reveal_strlit("-s with --show-all");
    reveal_strlit("double stdin --number");
    reveal_strlit("--show-nonprinting binary");
    reveal_strlit("--show-all binary");
    reveal_strlit("--show-tabs with no tabs");
}

/// The names of cases 265 to 281 have the stamps listed for them.
proof fn lemma_stamps_12()
    ensures
        stamped_as(names_12(), stamps_12()),
{
    reveal_strlit("--show-ends no newline file");
    reveal_strlit("--number empty file");
    reveal_strlit("--number-nonblank empty file");
    reveal_strlit("--squeeze-blank empty file");
    reveal_strlit("--show-all empty file");
    reveal_strlit("--show-nonprinting empty file");
    reveal_strlit("only newlines file -b");
    reveal_strlit("stdin only newlines -b");
    reveal_strlit("only newlines file -n");
    reveal_strlit("stdin only newlines -n");
    reveal_strlit("stdin only newlines --number-nonblank");
    reveal_strlit("stdin only newlines --show-ends");
    reveal_strlit("file named -A with --");
    reveal_strlit("file named --show-all with --");
    reveal_strlit("file named --show-nonprinting with --");
    reveal_strlit("bad option bundle");
    reveal_strlit("process asm keeps comment-only lines");
}

/// Names and stamps that are listed side by side stay side by side when
/// two lists are put together.
proof fn lemma_stamped_as_concat(a: Seq<Seq<char>>, sa: Seq<int>, b: Seq<Seq<char>>, sb: Seq<int>)
    requires
        stamped_as(a, sa),
        stamped_as(b, sb),
    ensures
        stamped_as(a + b, sa + sb),
{
    assert forall|k: int| 0 <= k < (a + b).len() implies stamp(#[trigger] (a + b)[k]) == (sa
        + sb)[k] && !begins_like_generated((a + b)[k]) by {
        if k < a.len() {
            assert((a + b)[k] == a[k]);
        } else {
            assert((a + b)[k] == b[k - a.len()]);
        }
    }
}

/// Every name has the stamp that is listed for it.
proof fn lemma_stamps()
    ensures
        stamped_as(hand_written_names(), stamps()),
{
    lemma_stamps_1();
    lemma_stamps_2();
    lemma_stamps_3();
    lemma_stamps_4();
    lemma_stamps_5();
    lemma_stamps_6();
    lemma_stamps_7();
    lemma_stamps_8();
    lemma_stamps_9();
    lemma_stamps_10();
    lemma_stamps_11();
    lemma_stamps_12();
    let names = names_1();
    let stamps = stamps_1();
    lemma_stamped_as_concat(names, stamps, names_2(), stamps_2());
    let names = names + names_2();
    let stamps = stamps + stamps_2();
    lemma_stamped_as_concat(names, stamps, names_3(), stamps_3());
    let names = names + names_3();
    let stamps = stamps + stamps_3();
    lemma_stamped_as_concat(names, stamps, names_4(), stamps_4());
    let names = names + names_4();
    let stamps = stamps + stamps_4();
    lemma_stamped_as_concat(names, stamps, names_5(), stamps_5());
    let names = names + names_5();
    let stamps = stamps + stamps_5();
    lemma_stamped_as_concat(names, stamps, names_6(), stamps_6());
    let names = names + names_6();
    let stamps = stamps + stamps_6();
    lemma_stamped_as_concat(names, stamps, names_7(), stamps_7());
    let names = names + names_7();
    let stamps = stamps + stamps_7();
    lemma_stamped_as_concat(names, stamps, names_8(), stamps_8());
    let names = names + names_8();
    let stamps = stamps + stamps_8();
    lemma_stamped_as_concat(names, stamps, names_9(), stamps_9());
    let names = names + names_9();
    let stamps = stamps + stamps_9();
    lemma_stamped_as_concat(names, stamps, names_10(), stamps_10());
    let names = names + names_10();
    let stamps = stamps + stamps_10();
    lemma_stamped_as_concat(names, stamps, names_11(), stamps_11());
    let names = names + names_11();
    let stamps = stamps + stamps_11();
    lemma_stamped_as_concat(names, stamps, names_12(), stamps_12());
}

/// No stamp stands twice in the list.
#[verifier::rlimit(60)]
proof fn lemma_stamps_distinct(i: int, j: int)
    requires
        0 <= i < j < stamps().len(),
    ensures
        stamps()[i] != stamps()[j],
{
}

/// No two hand-written cases have the same name.
pub proof fn lemma_hand_written_names_distinct(i: int, j: int)
    requires
        0 <= i < j < hand_written_names().len(),
    ensures
        hand_written_names()[i] != hand_written_names()[j],
{
    lemma_stamps();
    lemma_stamps_distinct(i, j);
    assert(stamp(hand_written_names()[i]) == stamps()[i]);
    assert(stamp(hand_written_names()[j]) == stamps()[j]);
}

/// No hand-written case has a name that begins with `matrix `, as the
/// names of all generated cases do.
pub proof fn lemma_hand_written_names_unmarked(i: int)
    requires
        0 <= i < hand_written_names().len(),
    ensures
        !starts_with(hand_written_names()[i], "matrix "@),
{
    lemma_stamps();
    reveal_strlit("matrix ");
    let name = hand_written_names()[i];
    assert(!begins_like_generated(name));
    if starts_with(name, "matrix "@) {
        assert(name.subrange(0, 7)[0] == "matrix "@[0]);
        assert(name.subrange(0, 7)[1] == "matrix "@[1]);
    }
}

} // verus!
