//! The generator of Spigot plugin projects: a normalised description of the
//! project, and the plan that lays it out on disk.

use crate::project_generator::content_generator::{
    file_content, generate_main_java_content, generate_plugin_yml_content,
    generate_pom_xml_content, MAIN_JAVA_TEMPLATE, PLUGIN_YML_TEMPLATE, POM_XML_TEMPLATE,
};
use crate::project_generator::file_operations::{operations, FileOperation, FileOperationView};
use crate::project_generator::version::{resolve_version, resolved_version};
use crate::text::{
    capitalize_words, capitalized_words, has_plain_capitals, lemma_capitalized_word_is_fixed,
    lemma_capitalized_words_are_one_word, optional_text, replace_all, replaced, str_lowercase, text_between,
    to_chars, Separators,
};
use vstd::prelude::*;

verus! {

/// A project, ready to be generated.
pub struct SpigotGenerator {
    name: String,
    version: String,
    group_id: String,
    path: String,
}

/// What a `SpigotGenerator` stands for.
pub struct SpigotGeneratorView {
    /// The name of the plugin class, and in lower case of the project's
    /// directory.
    pub name: Seq<char>,
    /// The version of the dependency.
    pub version: Seq<char>,
    /// The group, which is also the package of the plugin class.
    pub group_id: Seq<char>,
    /// The directory under which the project's directory is created.
    pub path: Seq<char>,
}

impl View for SpigotGenerator {
    type V = SpigotGeneratorView;

    closed spec fn view(&self) -> SpigotGeneratorView {
        SpigotGeneratorView {
            name: self.name@,
            version: self.version@,
            group_id: self.group_id@,
            path: self.path@,
        }
    }
}

/// The name as an identifier: its alphanumeric words joined, each with its
/// first character in upper case and the rest as typed.
pub open spec fn formatted_name(name: Seq<char>) -> Seq<char> {
    capitalized_words(name, Separators::NonAlphanumeric)
}

/// Whether `path` is written relative to the current directory.
pub open spec fn is_relative(path: Seq<char>) -> bool {
    path.len() >= 2 && path[0] == '.' && path[1] == '/'
}

/// The destination: the current directory where no path or an empty one is
/// given; for a path that begins with `./`, what follows that prefix, under
/// the current directory; any other path as it is.
pub open spec fn project_path(path: Option<Seq<char>>, current_dir: Seq<char>) -> Seq<char> {
    match path {
        None => current_dir,
        Some(path) => if path.len() == 0 {
            current_dir
        } else if is_relative(path) {
            current_dir + seq!['/'] + path.skip(2)
        } else {
            path
        },
    }
}

/// Formatting is idempotent: formatting a formatted name changes nothing,
/// for every name whose words begin with characters of plain upper-case
/// mappings. An upper-case mapping that brings in a character that is not
/// alphanumeric would split the formatted name into new words.
pub proof fn lemma_format_name_idempotent(name: Seq<char>)
    requires
        has_plain_capitals(name),
    ensures
        formatted_name(formatted_name(name)) == formatted_name(name),
{
    lemma_capitalized_words_are_one_word(name);
    lemma_capitalized_word_is_fixed(formatted_name(name));
}

/// No path and the empty path both mean the current directory.
pub proof fn lemma_missing_path_is_current_dir(current_dir: Seq<char>)
    ensures
        project_path(None, current_dir) == current_dir,
        project_path(Some(Seq::empty()), current_dir) == current_dir,
        project_path(None, current_dir) == project_path(Some(Seq::empty()), current_dir),
{
}

/// A path that begins with `./` is what follows that prefix, joined onto
/// the current directory with one separator.
pub proof fn lemma_relative_path_is_joined(rest: Seq<char>, current_dir: Seq<char>)
    ensures
        project_path(Some(seq!['.', '/'] + rest), current_dir) == current_dir + seq!['/'] + rest,
{
    let path = seq!['.', '/'] + rest;
    assert(path.skip(2) =~= rest);
}

/// Any other path is the destination as it stands.
pub proof fn lemma_other_path_is_kept(path: Seq<char>, current_dir: Seq<char>)
    requires
        path.len() > 0,
        !is_relative(path),
    ensures
        project_path(Some(path), current_dir) == path,
{
}

/// The project as normalised from what the user supplied.
pub open spec fn normalized(
    name: Seq<char>,
    version: Seq<char>,
    group_id: Seq<char>,
    path: Option<Seq<char>>,
    current_dir: Seq<char>,
) -> SpigotGeneratorView {
    SpigotGeneratorView {
        name: formatted_name(name),
        version: resolved_version(version),
        group_id,
        path: project_path(path, current_dir),
    }
}

/// The plan for a project whose directory is named `lower_name`: the
/// project's directory and the build descriptor in it, the resources
/// directory and the manifest in it, the directory of the package and the
/// plugin class in it.
pub open spec fn scaffold(project: SpigotGeneratorView, lower_name: Seq<char>) -> Seq<
    FileOperationView,
> {
    let project_path = project.path + "/"@ + lower_name;
    let resources_path = project_path + "/src/main/resources"@;
    let java_path = project_path + "/src/main/java/"@ + replaced(project.group_id, "."@, "/"@);
    seq![
        FileOperationView::CreateDirectory { path: project_path },
        FileOperationView::CreateFile {
            path: project_path + "/pom.xml"@,
            content: file_content(
                POM_XML_TEMPLATE@,
                project.name,
                project.version,
                project.group_id,
            ),
        },
        FileOperationView::CreateDirectory { path: resources_path },
        FileOperationView::CreateFile {
            path: resources_path + "/plugin.yml"@,
            content: file_content(
                PLUGIN_YML_TEMPLATE@,
                project.name,
                Seq::empty(),
                project.group_id,
            ),
        },
        FileOperationView::CreateDirectory { path: java_path },
        FileOperationView::CreateFile {
            path: java_path + "/"@ + project.name + ".java"@,
            content: file_content(
                MAIN_JAVA_TEMPLATE@,
                project.name,
                Seq::empty(),
                project.group_id,
            ),
        },
    ]
}

/// `base`, followed by `tail`.
fn extended(base: &str, tail: &str) -> (path: String)
    ensures
        path@ == base@ + tail@,
{
    base.to_owned().concat(tail)
}

impl SpigotGenerator {
    /// Normalises what the user supplied: the name becomes an identifier,
    /// the version the version of the dependency, the path a destination.
    /// `current_dir` is the directory that relative and missing paths refer
    /// to.
    pub fn new(
        name: String,
        version: String,
        group_id: String,
        path: Option<String>,
        current_dir: &str,
    ) -> (generator: Self)
        ensures
            generator@ == normalized(
                name@,
                version@,
                group_id@,
                optional_text(path),
                current_dir@,
            ),
    {
        let version = resolve_version(version.as_str());
        Self {
            name: Self::format_name(name),
            version,
            group_id,
            path: Self::get_project_path(path, current_dir),
        }
    }

    /// Turns a name into an identifier.
    pub fn format_name(name: String) -> (formatted: String)
        ensures
            formatted@ == formatted_name(name@),
    {
        capitalize_words(name.as_str(), Separators::NonAlphanumeric)
    }

    /// Resolves the destination against the current directory.
    pub fn get_project_path(path: Option<String>, current_dir: &str) -> (resolved: String)
        ensures
            resolved@ == project_path(optional_text(path), current_dir@),
    {
        match path {
            None => current_dir.to_owned(),
            Some(path) => {
                let chars = to_chars(path.as_str());
                if chars.len() == 0 {
                    current_dir.to_owned()
                } else if chars.len() >= 2 && chars[0] == '.' && chars[1] == '/' {
                    let rest = text_between(&chars, 2, chars.len());
                    let mut resolved = current_dir.to_owned();
                    resolved.push('/');
                    resolved.append(rest.as_str());
                    assert(chars@.subrange(2, chars@.len() as int) =~= path@.skip(2));
                    assert(current_dir@.push('/') =~= current_dir@ + seq!['/']);
                    resolved
                } else {
                    path
                }
            },
        }
    }

    /// The name of the plugin class.
    pub fn name(&self) -> (name: &String)
        ensures
            name@ == self@.name,
    {
        &self.name
    }

    /// The version of the dependency.
    pub fn version(&self) -> (version: &String)
        ensures
            version@ == self@.version,
    {
        &self.version
    }

    /// The group.
    pub fn group_id(&self) -> (group_id: &String)
        ensures
            group_id@ == self@.group_id,
    {
        &self.group_id
    }

    /// The directory under which the project's directory is created.
    pub fn path(&self) -> (path: &String)
        ensures
            path@ == self@.path,
    {
        &self.path
    }

    /// The plan for this project in a directory named `lower_name`.
    pub fn scaffold_plan(&self, lower_name: &str) -> (plan: Vec<FileOperation>)
        ensures
            operations(plan@) == scaffold(self@, lower_name@),
    {
        let project_path = extended(extended(self.path.as_str(), "/").as_str(), lower_name);
        let resources_path = extended(project_path.as_str(), "/src/main/resources");
        let group_path = replace_all(self.group_id.as_str(), ".", "/");
        let java_path = extended(
            extended(project_path.as_str(), "/src/main/java/").as_str(),
            group_path.as_str(),
        );
        let pom_path = extended(project_path.as_str(), "/pom.xml");
        let manifest_path = extended(resources_path.as_str(), "/plugin.yml");
        let class_path = extended(
            extended(extended(java_path.as_str(), "/").as_str(), self.name.as_str()).as_str(),
            ".java",
        );
        let mut plan: Vec<FileOperation> = Vec::new();
        plan.push(FileOperation::CreateDirectory { path: project_path });
        plan.push(
            FileOperation::CreateFile {
                path: pom_path,
                content: generate_pom_xml_content(
                    self.name.as_str(),
                    self.version.as_str(),
                    self.group_id.as_str(),
                ),
            },
        );
        plan.push(FileOperation::CreateDirectory { path: resources_path });
        plan.push(
            FileOperation::CreateFile {
                path: manifest_path,
                content: generate_plugin_yml_content(self.name.as_str(), self.group_id.as_str()),
            },
        );
        plan.push(FileOperation::CreateDirectory { path: java_path });
        plan.push(
            FileOperation::CreateFile {
                path: class_path,
                content: generate_main_java_content(self.name.as_str(), self.group_id.as_str()),
            },
        );
        assert(operations(plan@) =~= scaffold(self@, lower_name@));
        plan
    }

    /// The plan that generates the project: `scaffold_plan` for the
    /// project's name in lower case.
    pub fn generate_project(&self) -> (plan: Vec<FileOperation>)
        ensures
            operations(plan@) == scaffold(self@, str_lowercase(self@.name)),
    {
        let project_name = self.name.to_lowercase();
        self.scaffold_plan(project_name.as_str())
    }
}

} // verus!
