//! The block of preprocessor definitions that exposes the package version to
//! users of the generated header.

use vstd::prelude::*;
use vstd::string::StringExecFns;

use crate::text::{decimal, to_decimal};
use crate::version::Version;

verus! {

/// What `heck::ShoutySnakeCase::to_shouty_snake_case` makes of a text: its
/// words in upper case, joined by underscores.
pub uninterp spec fn shouty_snake_case(text: Seq<char>) -> Seq<char>;

/// Calls `heck::ShoutySnakeCase::to_shouty_snake_case` on `text`.
///
/// The contract only gives the result its name: the same text always has the
/// same upper-snake-case form.
#[verifier::external_body]
fn to_shouty_snake_case(text: &str) -> (r: String)
    ensures
        r@ == shouty_snake_case(text@),
{
    heck::ShoutySnakeCase::to_shouty_snake_case(text)
}

/// Name of one of the three version constants: the prefix and `suffix`.
pub open spec fn constant_name(prefix: Seq<char>, suffix: Seq<char>) -> Seq<char> {
    prefix + suffix
}

/// One line that defines the constant `name` as `value`.
pub open spec fn define_line(name: Seq<char>, value: Seq<char>) -> Seq<char> {
    "#define "@ + name + " "@ + value + "\n"@
}

/// The three lines that define the version constants.
pub open spec fn version_constants(prefix: Seq<char>, version: Version) -> Seq<char> {
    define_line(constant_name(prefix, "_MAJOR_VERSION"@), decimal(version.major as nat))
        + define_line(constant_name(prefix, "_MINOR_VERSION"@), decimal(version.minor as nat))
        + define_line(constant_name(prefix, "_MICRO_VERSION"@), decimal(version.micro as nat))
}

/// The comparison macro: five lines, the first four continued by a backslash.
pub open spec fn check_version_macro(prefix: Seq<char>) -> Seq<char> {
    let major = constant_name(prefix, "_MAJOR_VERSION"@);
    let minor = constant_name(prefix, "_MINOR_VERSION"@);
    let micro = constant_name(prefix, "_MICRO_VERSION"@);
    "#define "@ + prefix + "_CHECK_VERSION(major,minor,micro) \\\n"@
        + ("    ("@ + major + " > (major) ||                                   \\\n"@)
        + ("     ("@ + major + " == (major) && "@ + minor + " > (minor)) || \\\n"@)
        + ("     ("@ + major + " == (major) && "@ + minor + " == (minor) && \\\n"@)
        + ("      "@ + micro + " >= (micro)))\n"@)
}

/// The whole block for the names that start with `prefix`: an empty line,
/// the three constants, an empty line, the comparison macro.
pub open spec fn version_macros(prefix: Seq<char>, version: Version) -> Seq<char> {
    "\n"@ + version_constants(prefix, version) + "\n"@ + check_version_macro(prefix)
}

/// Appends the line that defines `prefix` + `suffix` as the number `value`.
fn push_define(out: &mut String, prefix: &str, suffix: &str, value: u64)
    ensures
        final(out)@ == old(out)@ + define_line(
            constant_name(prefix@, suffix@),
            decimal(value as nat),
        ),
{
    let number = to_decimal(value);
    out.append("#define ");
    out.append(prefix);
    out.append(suffix);
    out.append(" ");
    out.append(number.as_str());
    out.append("\n");
    assert(out@ =~= old(out)@ + define_line(constant_name(prefix@, suffix@), decimal(value as nat)));
}

/// Appends the three lines of the version constants.
fn push_constants(out: &mut String, prefix: &str, version: Version)
    ensures
        final(out)@ == old(out)@ + version_constants(prefix@, version),
{
    push_define(out, prefix, "_MAJOR_VERSION", version.major);
    push_define(out, prefix, "_MINOR_VERSION", version.minor);
    push_define(out, prefix, "_MICRO_VERSION", version.micro);
    assert(out@ =~= old(out)@ + version_constants(prefix@, version));
}

/// Appends an opening text and the name of a constant.
fn push_name(out: &mut String, opening: &str, prefix: &str, suffix: &str)
    ensures
        final(out)@ == old(out)@ + (opening@ + constant_name(prefix@, suffix@)),
{
    out.append(opening);
    out.append(prefix);
    out.append(suffix);
    assert(out@ =~= old(out)@ + (opening@ + constant_name(prefix@, suffix@)));
}

/// Appends the comparison macro.
fn push_check_macro(out: &mut String, prefix: &str)
    ensures
        final(out)@ == old(out)@ + check_version_macro(prefix@),
{
    out.append("#define ");
    out.append(prefix);
    out.append("_CHECK_VERSION(major,minor,micro) \\\n");
    let ghost head = out@;
    assert(head =~= old(out)@ + ("#define "@ + prefix@
        + "_CHECK_VERSION(major,minor,micro) \\\n"@));

    push_name(out, "    (", prefix, "_MAJOR_VERSION");
    out.append(" > (major) ||                                   \\\n");
    let ghost first = out@;

    push_name(out, "     (", prefix, "_MAJOR_VERSION");
    push_name(out, " == (major) && ", prefix, "_MINOR_VERSION");
    out.append(" > (minor)) || \\\n");
    let ghost second = out@;

    push_name(out, "     (", prefix, "_MAJOR_VERSION");
    push_name(out, " == (major) && ", prefix, "_MINOR_VERSION");
    out.append(" == (minor) && \\\n");
    let ghost third = out@;

    push_name(out, "      ", prefix, "_MICRO_VERSION");
    out.append(" >= (micro)))\n");

    proof {
        let major = constant_name(prefix@, "_MAJOR_VERSION"@);
        let minor = constant_name(prefix@, "_MINOR_VERSION"@);
        let micro = constant_name(prefix@, "_MICRO_VERSION"@);
        assert(first =~= head + ("    ("@ + major
            + " > (major) ||                                   \\\n"@));
        assert(second =~= first + ("     ("@ + major + " == (major) && "@ + minor
            + " > (minor)) || \\\n"@));
        assert(third =~= second + ("     ("@ + major + " == (major) && "@ + minor
            + " == (minor) && \\\n"@));
        assert(out@ =~= third + ("      "@ + micro + " >= (micro)))\n"@));
        assert(out@ =~= old(out)@ + check_version_macro(prefix@));
    }
}

/// Writes the block of version macros for names that start with `prefix`,
/// which is taken as it is.
pub fn render_version_macros(prefix: &str, version: Version) -> (r: String)
    ensures
        r@ == version_macros(prefix@, version),
{
    let mut out = String::new();
    out.append("\n");
    push_constants(&mut out, prefix, version);
    out.append("\n");
    push_check_macro(&mut out, prefix);
    assert(out@ =~= version_macros(prefix@, version));
    out
}

/// Composes the block of version macros for a namespace: the names start
/// with the namespace in upper-snake-case.
pub fn compose_version_macros(namespace: &str, version: Version) -> (r: String)
    ensures
        r@ == version_macros(shouty_snake_case(namespace@), version),
{
    let prefix = to_shouty_snake_case(namespace);
    render_version_macros(prefix.as_str(), version)
}

/// The same namespace and the same version always give the same block, to
/// the character.
pub proof fn lemma_version_macros_deterministic(
    first_namespace: Seq<char>,
    first_version: Version,
    second_namespace: Seq<char>,
    second_version: Version,
)
    requires
        first_namespace == second_namespace,
        first_version == second_version,
    ensures
        version_macros(shouty_snake_case(first_namespace), first_version) == version_macros(
            shouty_snake_case(second_namespace),
            second_version,
        ),
{
}

} // verus!
