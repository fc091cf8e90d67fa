# Lotion

The logic of a desktop shell for Notion, written in Verus: which tabs there are
and which one of each window is active, how the state is sealed for disk and found
again, where pages may go, which pages may call into the application, and which
configuration is in force.

`src/` is the verified library.

| module              | what it holds                                                   |
|---------------------|-----------------------------------------------------------------|
| `state`             | windows, tabs, and the operations on them                       |
| `laws`              | what holds across operations                                    |
| `vault`             | key derivation, encryption, the stored form of the state        |
| `origin`            | trusted origins                                                 |
| `tab_controller`    | making a tab, navigation, popups, the title and address of a tab|
| `tab_manager`       | ids of tabs, keeping, giving up and showing them                |
| `window_controller` | the main window, its events, the tabs it opens with             |
| `commands`          | the commands that pages call                                    |
| `config`            | the configuration and the move from the legacy directory        |
| `path`              | paths as lists of components                                    |
| `string_map`        | a map from strings                                              |
| `text`              | operations on text                                              |

`app/` is the program around it: files, windows, webviews and locks. Floating-point
numbers cross into the library as bit patterns, paths as lists of components, and
addresses of pages as scheme and host.

What the library does not prove but takes from other crates stands in wrappers
marked `external_body`: the key derivation of `pbkdf2`, the cipher of `aes-gcm`,
the encoding of `base64`, the random bytes of `rand`, the ids of `uuid`, the
parser of `url`, and the reading of UTF-8 by the standard library.
